use space_looter::application::services::{InputAction, InputCommand, InputHandlerService, InputState};

#[test]
fn input_handler_service_creation() {
    let service = InputHandlerService::new();
    assert_eq!(service.get_movement_vector(), (0, 0));
}

#[test]
fn key_state_updates() {
    let mut service = InputHandlerService::new();

    service.update_key_state("w", true);
    assert!(service.is_action_active(&InputAction::MoveUp));
    assert_eq!(service.get_movement_vector(), (0, 1));

    service.update_key_state("w", false);
    assert!(!service.is_action_active(&InputAction::MoveUp));
    assert_eq!(service.get_movement_vector(), (0, 0));
}

#[test]
fn movement_vector_calculation() {
    let mut service = InputHandlerService::new();

    service.update_key_state("w", true);
    service.update_key_state("d", true);

    let (x, y) = service.get_movement_vector();
    assert_eq!(x, 1);
    assert_eq!(y, 1);
}

#[test]
fn input_command_generation() {
    let mut service = InputHandlerService::new();

    service.update_key_state("a", true);

    let commands = service.process_input();
    assert_eq!(commands.len(), 1);

    if let InputCommand::Move { direction_x, direction_y } = &commands[0] {
        assert_eq!(*direction_x, -1);
        assert_eq!(*direction_y, 0);
    } else {
        panic!("Expected Move command");
    }
}

#[test]
fn custom_key_mapping() {
    let mut service = InputHandlerService::new();

    service.map_key("space".to_string(), InputAction::Pause);
    service.update_key_state("space", true);

    assert!(service.is_action_active(&InputAction::Pause));
}

#[test]
fn active_actions_tracking() {
    let mut service = InputHandlerService::new();

    service.update_key_state("w", true);
    service.update_key_state("p", true);

    let active_actions = service.get_active_actions();
    assert!(active_actions.contains(&InputAction::MoveUp));
    assert!(active_actions.contains(&InputAction::Pause));
}

#[test]
fn opposite_keys_cancel_and_commands_follow_the_order() {
    let mut service = InputHandlerService::default();
    service.update_key_state("a", true);
    service.update_key_state("ArrowRight", true);
    assert_eq!(service.get_movement_vector(), (0, 0));
    service.update_key_state("Escape", true);
    service.update_key_state("q", true);
    assert_eq!(service.process_input(), vec![InputCommand::Pause, InputCommand::Exit]);
    service.update_key_state("ArrowUp", true);
    service.update_key_state("w", true);
    assert_eq!(
        service.process_input(),
        vec![InputCommand::Move { direction_x: 0, direction_y: 2 }, InputCommand::Pause, InputCommand::Exit]
    );
    let active = service.get_active_actions();
    assert_eq!(active.len(), 5);
}

#[test]
fn unmapped_keys_do_nothing() {
    let mut service = InputHandlerService::new();
    service.unmap_key("w");
    service.update_key_state("w", true);
    assert_eq!(service.get_movement_vector(), (0, 0));
    assert!(!service.is_action_active(&InputAction::MoveUp));
    assert!(service.input_state().is_key_pressed("w"));
    assert!(!service.input_state().is_key_pressed("x"));
    let state = InputState::new();
    assert_eq!(state.movement_vector(), (0, 0));
}

#[test]
fn remapping_replaces_the_action() {
    let mut service = InputHandlerService::new();
    service.map_key("w".to_string(), InputAction::MoveDown);
    service.update_key_state("w", true);
    assert_eq!(service.get_movement_vector(), (0, -1));
    assert!(service.is_action_active(&InputAction::MoveDown));
    assert!(!service.is_action_active(&InputAction::MoveUp));
}
