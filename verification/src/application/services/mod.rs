//! Services of the application layer.
pub mod game_session;
pub mod input_handler;

pub use game_session::GameSessionService;
pub use input_handler::{InputAction, InputCommand, InputHandlerService, InputState};
