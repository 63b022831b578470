//! Hand-built synchronization and container primitives, with verified logic.
//!
//! The crate mirrors what a language runtime normally supplies opaquely.
//! Its core is the mutual-exclusion and hand-off layer: a spin-based lock
//! in three tiers of memory-ordering care ([`atomics`]), whose acquisition
//! disciplines are modelled and proved under every thread interleaving in
//! [`lock_protocol`] and [`ordering`], and a blocking
//! multi-producer/single-consumer channel ([`channel`]) whose queue and
//! sender-count logic is verified and whose delivery laws are proved.
//! Around the core stand single-threaded companions: a value cell
//! ([`cell`]), a dynamically borrow-checked cell ([`refcell`]), a
//! double-ended flattening adapter ([`flatten`]), and vector builders
//! ([`vec_builder`]).

pub mod atomics;
pub mod cell;
pub mod channel;
pub mod flatten;
pub mod lock_protocol;
pub mod ordering;
pub mod refcell;
pub mod vec_builder;
