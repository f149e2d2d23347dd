//! Score value object with an upper bound and thousands-separated display.
use crate::domain::constants::POINTS_PER_ENEMY;
use crate::domain::DomainError;
use crate::text::{append_decimal, append_grouped_decimal, decimal, grouped_decimal};
use vstd::prelude::*;

verus! {

/// Maximum allowed score value.
pub const MAX_SCORE: u32 = 999_999;

/// Immutable score value bounded by `MAX_SCORE`.
#[derive(Debug, Clone, Copy, PartialEq, Eq, PartialOrd, Ord, Structural)]
pub struct Score {
    value: u32,
}

impl Score {
    /// Maximum allowed score value.
    pub const MAX_SCORE: u32 = 999_999;

    /// The points held.
    pub closed spec fn points(&self) -> u32 {
        self.value
    }

    /// A validated score: at most `MAX_SCORE`.
    pub fn new(value: u32) -> (r: Result<Self, DomainError>)
        ensures
            r is Ok <==> value <= MAX_SCORE,
            r matches Ok(s) ==> s.points() == value,
            r matches Err(e) ==> (e matches DomainError::InvalidScore(m) && m@ == "Score "@ + decimal(value as nat)
                + " exceeds maximum allowed score of 999999"@),
    {
        if value > MAX_SCORE {
            let mut msg = String::from_str("Score ");
            append_decimal(&mut msg, value as u64);
            msg.append(" exceeds maximum allowed score of 999999");
            return Err(DomainError::InvalidScore(msg));
        }
        Ok(Score { value })
    }

    /// The starting score.
    pub fn zero() -> (r: Self)
        ensures
            r.points() == 0,
    {
        Score { value: 0 }
    }

    /// The score value.
    pub fn value(&self) -> (r: u32)
        ensures
            r == self.points(),
    {
        self.value
    }

    /// Add points, capping at `MAX_SCORE`.
    pub fn add(&self, points: u32) -> (r: Result<Score, DomainError>)
        ensures
            r matches Ok(s) && s.points() == (if self.points() + points > MAX_SCORE {
                MAX_SCORE as int
            } else {
                self.points() + points
            }),
    {
        let sum = self.value.saturating_add(points);
        let capped = if sum < MAX_SCORE { sum } else { MAX_SCORE };
        Score::new(capped)
    }

    /// Add the points awarded for an enemy.
    pub fn add_enemy_points(&self) -> (r: Result<Score, DomainError>)
        ensures
            r matches Ok(s) && s.points() == (if self.points() + POINTS_PER_ENEMY > MAX_SCORE {
                MAX_SCORE as int
            } else {
                self.points() + POINTS_PER_ENEMY
            }),
    {
        self.add(POINTS_PER_ENEMY)
    }

    /// Whether this score beats another.
    pub fn is_higher_than(&self, other: &Score) -> (r: bool)
        ensures
            r == (self.points() > other.points()),
    {
        self.value > other.value
    }

    /// Whether the score reached the maximum.
    pub fn is_max(&self) -> (r: bool)
        ensures
            r == (self.points() == MAX_SCORE),
    {
        self.value == MAX_SCORE
    }

    /// The score with thousands separators.
    pub fn formatted(&self) -> (r: String)
        ensures
            r@ == grouped_decimal(self.points() as nat),
    {
        format_score(self.value)
    }

    /// The score as shown to the player (same as `formatted`).
    pub fn to_string(&self) -> (r: String)
        ensures
            r@ == grouped_decimal(self.points() as nat),
    {
        self.formatted()
    }

    /// A score from a number, capped at `MAX_SCORE`.
    pub fn from_value(value: u32) -> (r: Self)
        ensures
            r.points() == (if value > MAX_SCORE { MAX_SCORE } else { value }),
    {
        match Score::new(value) {
            Ok(s) => s,
            Err(_) => Score { value: MAX_SCORE },
        }
    }
}

impl From<u32> for Score {
    fn from(value: u32) -> (r: Self) {
        Score::from_value(value)
    }
}

impl vstd::std_specs::convert::FromSpecImpl<u32> for Score {
    open spec fn obeys_from_spec() -> bool {
        true
    }

    closed spec fn from_spec(value: u32) -> Score {
        Score { value: if value > MAX_SCORE { MAX_SCORE } else { value } }
    }
}

impl Default for Score {
    fn default() -> (r: Self)
        ensures
            r.points() == 0,
    {
        Self::zero()
    }
}

/// A number with a ',' between every group of three digits ("1,234,567").
pub fn format_score(score: u32) -> (r: String)
    ensures
        r@ == grouped_decimal(score as nat),
{
    let mut s = String::new();
    append_grouped_decimal(&mut s, score as u64);
    assert(s@ =~= grouped_decimal(score as nat));
    s
}

} // verus!
