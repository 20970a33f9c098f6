//! A state store for turn-based play: a registry of entities, sparse
//! attribute stores, parent/child relationships, the turn-order engine, and
//! a command pipeline that turns a state into a new state or a refusal.
use vstd::prelude::*;

pub mod applicable;
pub mod command;
pub mod component;
pub mod effect;
pub mod entity;
pub mod error;
pub mod event;
pub mod model;
pub mod player;
pub mod queryable;
pub mod registry;
pub mod scenario;
pub mod state;
pub mod structure;
pub mod subsys;
