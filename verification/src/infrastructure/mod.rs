//! Infrastructure: the platform services the game rules rely on.
pub mod bevy;
pub mod random;
pub mod time;
pub mod traits;

use vstd::prelude::*;

verus! {

/// Failures of the platform services.
#[derive(Debug, Clone, PartialEq, Eq)]
pub enum InfrastructureError {
    /// An engine operation failed.
    BevyError(String),
    /// Random number generation failed.
    RandomError(String),
    /// A time operation failed.
    TimeError(String),
    /// A web platform operation failed.
    WebError(String),
    /// An outside service failed.
    ExternalServiceError(String),
    /// A coordinate conversion failed.
    CoordinateConversionError(String),
    /// An isometric projection failed.
    IsometricProjectionError(String),
}

impl InfrastructureError {
    /// The text shown for the error.
    pub open spec fn spec_message(&self) -> Seq<char> {
        match self {
            InfrastructureError::BevyError(m) => "Bevy error: "@ + m@,
            InfrastructureError::RandomError(m) => "Random error: "@ + m@,
            InfrastructureError::TimeError(m) => "Time error: "@ + m@,
            InfrastructureError::WebError(m) => "Web error: "@ + m@,
            InfrastructureError::ExternalServiceError(m) => "External service error: "@ + m@,
            InfrastructureError::CoordinateConversionError(m) => "Coordinate conversion error: "@ + m@,
            InfrastructureError::IsometricProjectionError(m) => "Isometric projection error: "@ + m@,
        }
    }

    /// The text shown for the error.
    pub fn to_string(&self) -> (r: String)
        ensures
            r@ == self.spec_message(),
    {
        match self {
            InfrastructureError::BevyError(m) => String::from_str("Bevy error: ").concat(m.as_str()),
            InfrastructureError::RandomError(m) => String::from_str("Random error: ").concat(m.as_str()),
            InfrastructureError::TimeError(m) => String::from_str("Time error: ").concat(m.as_str()),
            InfrastructureError::WebError(m) => String::from_str("Web error: ").concat(m.as_str()),
            InfrastructureError::ExternalServiceError(m) => String::from_str("External service error: ").concat(m.as_str()),
            InfrastructureError::CoordinateConversionError(m) => String::from_str("Coordinate conversion error: ").concat(m.as_str()),
            InfrastructureError::IsometricProjectionError(m) => String::from_str("Isometric projection error: ").concat(m.as_str()),
        }
    }
}

/// Result of a platform operation.
pub type InfrastructureResult<T> = Result<T, InfrastructureError>;

/// Settings of the web build.
#[derive(Debug, Clone)]
pub struct WebConfig {
    /// Identifier of the canvas element the game draws into.
    pub canvas_id: String,
    /// Whether web-specific optimizations are on.
    pub optimizations: bool,
    /// Frame rate cap, if any.
    pub max_fps: Option<u32>,
    /// Whether touch controls are on.
    pub touch_controls: bool,
}

impl Default for WebConfig {
    /// Canvas "bevy", optimizations on, 60 frames per second at most, touch controls
    /// off (the web build's own entry point turns them on).
    fn default() -> (r: Self)
        ensures
            r.canvas_id@ == "bevy"@,
            r.optimizations,
            r.max_fps == Some(60u32),
            !r.touch_controls,
    {
        WebConfig {
            canvas_id: String::from_str("bevy"),
            optimizations: true,
            max_fps: Some(60),
            touch_controls: false,
        }
    }
}

} // verus!
