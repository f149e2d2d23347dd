//! Updating a session's score.
use crate::application::dto::{UpdateScoreInput, UpdateScoreOutput};
use crate::application::{ApplicationError, ApplicationResult};
use crate::domain::{saturating_sum, Score};
use vstd::prelude::*;

verus! {

/// Use case adding points to a session's score.
#[derive(Debug, Clone, Copy)]
pub struct UpdateScoreUseCase;

impl UpdateScoreUseCase {
    /// A new use case.
    pub fn new() -> (r: Self) {
        UpdateScoreUseCase
    }

    /// Add the points to a session's score, which starts from zero.
    pub fn execute(&self, input: UpdateScoreInput) -> (r: ApplicationResult<UpdateScoreOutput>)
        ensures
            r matches Ok(out) && out.session_id@ == input.session_id@ && out.old_score.points() == 0
                && out.new_score.points() == saturating_sum(0, input.points_to_add as int),
    {
        let old_score = Score::zero();
        let new_score = match old_score.add(input.points_to_add) {
            Ok(s) => s,
            Err(e) => return Err(ApplicationError::DomainError(e)),
        };
        Ok(UpdateScoreOutput { session_id: input.session_id, old_score, new_score })
    }
}

impl Default for UpdateScoreUseCase {
    fn default() -> (r: Self) {
        Self::new()
    }
}

} // verus!
