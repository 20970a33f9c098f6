//! Lasting effects on entities: the records only, no rules yet.
use std::collections::HashMap;
use vstd::prelude::*;

use crate::entity;
use crate::subsys::round::RoundCount;

verus! {

pub type Id = usize;

pub type Effects = HashMap<Id, Effect>;

pub type EntityEffects = HashMap<entity::Id, Vec<Id>>;

#[derive(Debug, Clone, PartialEq, Eq)]
pub struct State {
    pub next_effect_id: Id,
    pub effects: Effects,
    pub entity_created_effects: EntityEffects,
    pub entity_active_effects: EntityEffects,
}

impl Default for State {
    fn default() -> (r: Self)
        ensures
            r.next_effect_id == 0,
            r.effects@ == Map::<Id, Effect>::empty(),
            r.entity_created_effects@ == Map::<entity::Id, Vec<Id>>::empty(),
            r.entity_active_effects@ == Map::<entity::Id, Vec<Id>>::empty(),
    {
        Self {
            next_effect_id: 0,
            effects: HashMap::new(),
            entity_created_effects: HashMap::new(),
            entity_active_effects: HashMap::new(),
        }
    }
}

/// How long an effect lasts.
#[derive(Debug, Clone, Copy, PartialEq, Eq)]
pub enum Duration {
    Instant,
    UntilNextRound,
    UpToNthRound(RoundCount),
    ThroughNthRound(RoundCount),
    Forever,
    WhileSourceExists(entity::Id),
    WhileTargetExists(entity::Id),
    WhileSourceAndTargetExists(entity::Id, entity::Id),
}

#[derive(Debug, Clone, PartialEq, Eq)]
pub struct Effect {
    pub label: String,
    pub duration: Duration,
}

impl Default for Effect {
    fn default() -> (r: Self)
        ensures
            r.label@ == "Unknown effect"@,
            r.duration == Duration::Instant,
    {
        Self { duration: Duration::Instant, label: "Unknown effect".to_string() }
    }
}

} // verus!
