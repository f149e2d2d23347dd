use space_looter::domain::{CollisionService, DomainError, GamePhase, Position3D, Score, SpawningService, WorldBoundaries};

#[test]
fn world_boundaries_contains_position() {
    let boundaries = WorldBoundaries::standard();
    let position = Position3D::new(0, 0, 5);
    assert!(boundaries.contains(&position));
    assert!(!boundaries.contains(&Position3D::new(51, 0, 5)));
}

#[test]
fn world_boundaries_clamps_position() {
    let boundaries = WorldBoundaries::standard();
    let position = Position3D::new(1000, 1000, 1000);
    let clamped = boundaries.clamp(position);
    assert_eq!(clamped.x, boundaries.max_x);
    assert_eq!(clamped.y, boundaries.max_y);
    assert_eq!(clamped.z, boundaries.max_z);
}

#[test]
fn world_boundaries_size_calculation() {
    let boundaries = WorldBoundaries::standard();
    assert_eq!(boundaries.size(), (101, 101, 11));
    assert_eq!(WorldBoundaries::large().size(), (401, 401, 21));
}

#[test]
fn domain_error_display() {
    let error = DomainError::PlayerError("test error".to_string());
    assert_eq!(error.to_string(), "Player error: test error");
    assert_eq!(DomainError::InvalidMapCoordinates(1, -2, 3).to_string(), "Invalid map coordinates: (1, -2, 3)");
    assert_eq!(
        DomainError::ServiceError { service: "Audio".to_string(), reason: "muted".to_string() }.to_string(),
        "Audio service error: muted"
    );
    assert_eq!(DomainError::InvalidResourceAmount(-5).to_string(), "Invalid resource amount: -5");
}

#[test]
fn game_phase_default() {
    assert_eq!(GamePhase::default(), GamePhase::PlayerTurn);
}

#[test]
fn legacy_score_operations() {
    let mut score = Score::new(5).unwrap().add(10).unwrap();
    assert_eq!(score.value(), 15);
    score.add_enemy_points().unwrap();
    assert_eq!(score.value(), 115);
    assert_eq!(score.formatted(), "115");
    assert_eq!(Score::new(u32::MAX).unwrap().add(1).unwrap().value(), u32::MAX);
}

#[test]
fn legacy_services() {
    let collision = CollisionService::new();
    let s = collision.resolve_player_enemy_collision(&Position3D::origin(), &Position3D::new(1, 1, 0)).unwrap();
    assert_eq!(s.value(), 10);
    let spawn = SpawningService::new();
    assert_eq!(spawn.calculate_spawn_position(&WorldBoundaries::standard()).unwrap(), Position3D::origin());
}
