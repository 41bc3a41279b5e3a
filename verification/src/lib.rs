pub mod api;
pub mod cli;
pub mod db;
pub mod error;
pub mod media;
pub mod text;

use vstd::prelude::*;

verus! {

/// Marker for the lifecycle stage of an entity: a closed set of three tags
/// used to parameterize entity types, so that operations legal only in one
/// stage are defined only for that stage.
pub trait EntityState {}

/// An entity holding only the facts known before enrichment.
pub struct Incomplete;

impl EntityState for Incomplete {}

/// An entity enriched with catalog metadata, not yet persisted.
pub struct Complete;

impl EntityState for Complete {}

/// An entity reconstructed from the store, carrying a durable identity.
pub struct Loaded;

impl EntityState for Loaded {}

} // verus!
