//! The core of a product-catalog service: the product model, the storage and
//! broker ports, a unit of work that commits store writes before it publishes
//! their events, the command and query handlers, and the consumers of cart
//! events that feed those handlers.
use vstd::prelude::*;

pub mod auth;
pub mod cqrs;
pub mod domain;
pub mod dtos;
pub mod events;
pub mod laws;
pub mod metrics;
pub mod repositories;
pub mod uow;

verus! {

} // verus!
