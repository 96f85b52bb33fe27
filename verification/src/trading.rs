//! The call shapes of the trading collaborators that the core launches but
//! never exercises.

use vstd::prelude::*;

verus! {

/// What a strategy can ask for.
#[derive(Clone, Copy, Debug, PartialEq, Eq, Structural)]
pub enum IntentKind {
    PlaceOrder,
    CancelOrder,
    CancelAll,
    FlattenMarket,
    NoOp,
}

/// The order-execution collaborator. A stub: it carries no state yet.
pub struct ExecutionEngine;

impl ExecutionEngine {
    pub fn new() -> (r: Self)
        ensures
            r == ExecutionEngine,
    {
        ExecutionEngine
    }
}

impl Default for ExecutionEngine {
    fn default() -> (r: Self)
        ensures
            r == ExecutionEngine,
    {
        ExecutionEngine::new()
    }
}

} // verus!
