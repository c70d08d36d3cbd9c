//! Handler capabilities: the two shapes of user logic a route can lead to,
//! and how each is to be called.

use vstd::prelude::*;

verus! {

/// A registered unit of user logic. `H` is the callable itself, which this
/// crate stores and hands back but never looks into; the number beside it is
/// the count of arguments the callable was declared with.
#[derive(Clone, Debug, PartialEq, Eq)]
pub enum HandlerCapability<H> {
    /// Runs to completion on the thread that calls it.
    Blocking(H, u8),
    /// Must be scheduled on the cooperative scheduler and awaited.
    Cooperative(H, u8),
}

/// How many arguments a call passes.
#[derive(Clone, Copy, Debug, PartialEq, Eq, Structural)]
pub enum CallShape {
    /// The callable takes nothing.
    NoArgument,
    /// The callable takes one aggregate argument.
    SingleArgument,
}

/// Where a capability runs.
#[derive(Clone, Copy, Debug, PartialEq, Eq, Structural)]
pub enum ExecutionSite {
    /// A thread of the blocking-offload pool.
    OffloadPool,
    /// The one thread that drives the cooperative scheduler.
    LoopThread,
}

/// The call shape for a declared argument count: none for zero, one
/// aggregate argument for every other count.
pub open spec fn shape_for(arity: u8) -> CallShape {
    if arity == 0 {
        CallShape::NoArgument
    } else {
        CallShape::SingleArgument
    }
}

impl<H> HandlerCapability<H> {
    /// The declared argument count.
    pub open spec fn arity(&self) -> u8 {
        match self {
            HandlerCapability::Blocking(_, n) => *n,
            HandlerCapability::Cooperative(_, n) => *n,
        }
    }

    /// The callable.
    pub open spec fn callable(&self) -> H {
        match self {
            HandlerCapability::Blocking(h, _) => *h,
            HandlerCapability::Cooperative(h, _) => *h,
        }
    }

    /// Where this capability runs.
    pub open spec fn site(&self) -> ExecutionSite {
        match self {
            HandlerCapability::Blocking(_, _) => ExecutionSite::OffloadPool,
            HandlerCapability::Cooperative(_, _) => ExecutionSite::LoopThread,
        }
    }

    /// Wraps a callable: cooperative when `is_async`, blocking otherwise.
    pub fn new(handler: H, is_async: bool, number_of_params: u8) -> (capability: Self)
        ensures
            capability == (if is_async {
                HandlerCapability::Cooperative(handler, number_of_params)
            } else {
                HandlerCapability::Blocking(handler, number_of_params)
            }),
    {
        if is_async {
            HandlerCapability::Cooperative(handler, number_of_params)
        } else {
            HandlerCapability::Blocking(handler, number_of_params)
        }
    }

    /// The declared argument count.
    pub fn number_of_params(&self) -> (n: u8)
        ensures
            n == self.arity(),
    {
        match self {
            HandlerCapability::Blocking(_, n) => *n,
            HandlerCapability::Cooperative(_, n) => *n,
        }
    }

    /// Whether the capability is a coroutine.
    pub fn is_cooperative(&self) -> (yes: bool)
        ensures
            yes == (self is Cooperative),
    {
        match self {
            HandlerCapability::Blocking(_, _) => false,
            HandlerCapability::Cooperative(_, _) => true,
        }
    }

    /// The callable.
    pub fn handler(&self) -> (h: &H)
        ensures
            *h == self.callable(),
    {
        match self {
            HandlerCapability::Blocking(h, _) => h,
            HandlerCapability::Cooperative(h, _) => h,
        }
    }

    /// How a call to this capability passes its argument.
    pub fn call_shape(&self) -> (shape: CallShape)
        ensures
            shape == shape_for(self.arity()),
    {
        if self.number_of_params() == 0 {
            CallShape::NoArgument
        } else {
            CallShape::SingleArgument
        }
    }

    /// Where this capability runs.
    pub fn execution_site(&self) -> (site: ExecutionSite)
        ensures
            site == self.site(),
    {
        match self {
            HandlerCapability::Blocking(_, _) => ExecutionSite::OffloadPool,
            HandlerCapability::Cooperative(_, _) => ExecutionSite::LoopThread,
        }
    }
}

} // verus!
