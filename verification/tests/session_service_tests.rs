use space_looter::application::services::GameSessionService;
use space_looter::application::ApplicationError;
use space_looter::domain::DomainError;

#[test]
fn game_session_service_creation() {
    let service = GameSessionService::new();
    assert!(service.get_active_sessions().is_empty());
}

#[test]
fn create_and_manage_session() {
    let mut service = GameSessionService::new();

    let session_id = service.create_session("test_session".to_string()).unwrap();
    assert_eq!(session_id, "test_session");
    assert_eq!(service.get_active_sessions().len(), 1);

    assert!(service.start_session(&session_id).is_ok());
    assert!(service.is_session_active(&session_id));

    let new_score = service.update_session_score(&session_id, 100).unwrap();
    assert_eq!(new_score.value(), 100);

    let final_score = service.end_session(&session_id).unwrap();
    assert_eq!(final_score.value(), 100);
}

#[test]
fn session_lifecycle() {
    let mut service = GameSessionService::new();
    let session_id = service.create_session("lifecycle_test".to_string()).unwrap();

    assert!(service.start_session(&session_id).is_ok());
    assert!(service.pause_session(&session_id).is_ok());
    assert!(service.resume_session(&session_id).is_ok());
    assert!(service.end_session(&session_id).is_ok());
}

#[test]
fn invalid_session_operations() {
    let mut service = GameSessionService::new();

    assert!(service.start_session("non_existent").is_err());
    assert!(service.get_session_score("non_existent").is_err());
    assert!(!service.is_session_active("non_existent"));
}

#[test]
fn session_errors_are_told_apart() {
    let mut service = GameSessionService::default();
    service.create_session("a".to_string()).unwrap();
    assert_eq!(
        service.create_session("a".to_string()),
        Err(ApplicationError::InvalidSession("Session ID already exists".to_string()))
    );
    assert!(matches!(
        service.create_session(String::new()),
        Err(ApplicationError::DomainError(DomainError::ValidationError(_)))
    ));
    assert_eq!(
        service.pause_session("b"),
        Err(ApplicationError::InvalidSession("Session not found".to_string()))
    );
    assert!(matches!(
        service.resume_session("a"),
        Err(ApplicationError::DomainError(DomainError::InvalidGameState(_)))
    ));
    service.end_session("a").unwrap();
    assert!(matches!(
        service.start_session("a"),
        Err(ApplicationError::DomainError(DomainError::InvalidGameState(_)))
    ));
    assert!(!service.is_session_active("a"));
}

#[test]
fn sessions_are_kept_apart_and_removed() {
    let mut service = GameSessionService::new();
    service.create_session("one".to_string()).unwrap();
    service.create_session("two".to_string()).unwrap();
    service.update_session_score("one", 5).unwrap();
    assert_eq!(service.get_session_score("two").unwrap().value(), 0);
    assert_eq!(service.get_session_score("one").unwrap().value(), 5);
    assert_eq!(service.get_active_sessions(), vec!["one".to_string(), "two".to_string()]);
    service.remove_session("one").unwrap();
    assert!(service.remove_session("one").is_err());
    assert_eq!(service.get_active_sessions(), vec!["two".to_string()]);
}
