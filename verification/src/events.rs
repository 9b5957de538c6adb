//! Engine events.
use vstd::prelude::*;

verus! {

/// Marker for types that travel on the engine's event bus.
pub trait EngineEvent: Send + Sync + 'static {}

} // verus!
