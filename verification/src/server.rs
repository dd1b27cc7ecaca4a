//! The gRPC service of an A2A agent.
use vstd::prelude::*;

use std::sync::Arc;

verus! {

/// The `A2AService` gRPC service, wrapping the engine it shares with the
/// agent's other protocol bindings.
pub struct GrpcService<E> {
    engine: Arc<E>,
}

impl<E> GrpcService<E> {
    /// The engine the service answers from.
    pub closed spec fn spec_engine(self) -> Arc<E> {
        self.engine
    }

    /// A service answering from `engine`.
    pub fn new(engine: Arc<E>) -> (r: GrpcService<E>)
        ensures
            r.spec_engine() == engine,
    {
        GrpcService { engine }
    }

    /// The engine the service answers from.
    pub fn engine(&self) -> (r: &Arc<E>)
        ensures
            *r == self.spec_engine(),
    {
        &self.engine
    }
}

} // verus!
