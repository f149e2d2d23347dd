use space_looter::application::dto::{HandleCollisionInput, UpdateScoreInput};
use space_looter::application::use_cases::handle_collision::EncounterOutcome;
use space_looter::application::{ApplicationError, HandleEncounterUseCase, MovePlayerUseCase, SpawnEnemiesUseCase, UpdateScoreUseCase};
use space_looter::domain::value_objects::position::Position3D;
use space_looter::domain::value_objects::resources::ResourceType;
use space_looter::domain::{CollisionService, DomainError, SpawningService};

#[test]
fn application_error_from_domain_error() {
    let domain_error = DomainError::PlayerError("test".to_string());
    let app_error = ApplicationError::from(domain_error);
    if let ApplicationError::DomainError(_) = app_error {
    } else {
        panic!("Expected DomainError variant");
    }
}

#[test]
fn application_error_display() {
    let error = ApplicationError::UseCaseError("test error".to_string());
    assert_eq!(error.to_string(), "Use case error: test error");
}

#[test]
fn application_error_wraps_domain_text() {
    let error = ApplicationError::DomainError(DomainError::QuestError("no".to_string()));
    assert_eq!(error.to_string(), "Domain error: Quest error: no");
    assert_eq!(ApplicationError::InvalidSession("x".to_string()).to_string(), "Invalid session: x");
}

#[test]
fn use_cases_can_be_imported() {
    let _ = UpdateScoreUseCase::new();
    let _ = HandleEncounterUseCase::new();
}

#[test]
fn encounter_use_case_creation() {
    let use_case = HandleEncounterUseCase::new();
    let _ = use_case;
}

#[test]
fn encounter_processing_with_dice() {
    let use_case = HandleEncounterUseCase::new();
    let position = Position3D::new(0, 0, 0);
    let result = use_case.process_encounter(&position);
    assert!(result.is_ok());
}

#[test]
fn dice_based_encounter_resolution() {
    let resource_encounter = EncounterOutcome::ResourceFound { resource_type: ResourceType::Energy, amount: 15 };
    match resource_encounter {
        EncounterOutcome::ResourceFound { amount, .. } => {
            assert!(amount > 0);
        }
        _ => panic!("Expected resource encounter"),
    }
}

#[test]
fn encounters_convert_to_score_changes() {
    let use_case = HandleEncounterUseCase::new();
    let none = use_case.convert_outcome_to_output(EncounterOutcome::NoEncounter);
    assert!(!none.collision_detected);
    assert_eq!(none.score_change, None);
    let found = use_case.handle_resource_discovery(&Position3D::origin()).unwrap();
    let out = use_case.convert_outcome_to_output(found);
    assert_eq!(out.score_change, Some(13));
    let danger = use_case.handle_dangerous_encounter(&Position3D::origin()).unwrap();
    assert_eq!(use_case.convert_outcome_to_output(danger).score_change, Some(0));
    let rare = use_case.handle_rare_discovery(&Position3D::origin()).unwrap();
    assert_eq!(use_case.convert_outcome_to_output(rare).score_change, Some(50));
    let safe = use_case.handle_safe_exploration(&Position3D::origin()).unwrap();
    assert_eq!(use_case.convert_outcome_to_output(safe).score_change, Some(5));
    let input = HandleCollisionInput {
        entity1_id: "player".to_string(),
        entity1_position: Position3D::new(3, 4, 0),
        entity2_id: "enemy".to_string(),
        entity2_position: Position3D::new(3, 4, 0),
    };
    let out = use_case.execute(input).unwrap();
    assert!(out.collision_detected);
    assert_eq!(out.score_change, Some(25));
    assert!(out.entities_to_remove.is_empty());
}

#[test]
fn move_player_use_case_creation() {
    let _ = MovePlayerUseCase::new(CollisionService::new());
}

#[test]
fn spawn_enemies_use_case_creation() {
    let _ = SpawnEnemiesUseCase::new(SpawningService::new());
}

#[test]
fn update_score_use_case_creation() {
    let use_case = UpdateScoreUseCase::new();
    let _ = use_case;
}

#[test]
fn update_score_execution() {
    let use_case = UpdateScoreUseCase::new();
    let input = UpdateScoreInput { session_id: "test_session".to_string(), points_to_add: 100 };
    let result = use_case.execute(input);
    assert!(result.is_ok());
    let output = result.unwrap();
    assert_eq!(output.old_score.value(), 0);
    assert_eq!(output.new_score.value(), 100);
}
