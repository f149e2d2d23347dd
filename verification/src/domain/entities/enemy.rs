//! Enemies: their kinds and identities.
use crate::domain::{DomainError, DomainResult};
use vstd::prelude::*;

verus! {

/// Kinds of enemies.
#[derive(Debug, Clone, Copy, PartialEq, Eq, Structural)]
pub enum EnemyType {
    Basic,
}

/// The identity of an enemy: a non-empty name.
#[derive(Debug, Clone, PartialEq, Eq, Hash)]
pub struct EnemyId(String);

impl EnemyId {
    /// The name behind the identity.
    pub closed spec fn spec_value(&self) -> Seq<char> {
        self.0@
    }

    /// An identity from a name; an empty name is refused.
    pub fn new(id: String) -> (r: DomainResult<Self>)
        ensures
            r is Ok <==> id@.len() > 0,
            r matches Ok(e) ==> e.spec_value() == id@,
            r matches Err(e) ==> e == DomainError::EnemyError(e->EnemyError_0) && e->EnemyError_0@ == "Enemy ID cannot be empty"@,
    {
        if id.as_str().unicode_len() == 0 {
            return Err(DomainError::EnemyError(String::from_str("Enemy ID cannot be empty")));
        }
        Ok(EnemyId(id))
    }

    /// The name behind the identity.
    pub fn value(&self) -> (r: &str)
        ensures
            r@ == self.spec_value(),
    {
        self.0.as_str()
    }
}

} // verus!
