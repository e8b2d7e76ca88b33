//! The statistics relation: derived counters, one row per profile.

use vstd::prelude::*;
use crate::ids::PersonId;

verus! {

/// The counters kept for one profile. They are read as they are; nothing
/// here computes them.
#[derive(Clone, Copy, Debug, PartialEq, Eq, Structural)]
pub struct PersonAggregates {
    pub id: i32,
    pub person_id: PersonId,
    pub post_count: i64,
    pub post_score: i64,
    pub comment_count: i64,
    pub comment_score: i64,
}

} // verus!
