//! A transparent wrapper placed around a request handler.

use vstd::prelude::*;

verus! {

/// Wraps a handler so that each request can be traced on its way in.
/// The wrapper adds nothing to the handler's answer.
#[derive(Debug, Clone)]
pub struct Logger<S> {
    inner: S,
}

impl<S> Logger<S> {
    /// The handler inside the wrapper.
    pub closed spec fn inner_spec(&self) -> S {
        self.inner
    }

    /// Wraps `inner`.
    pub fn new(inner: S) -> (logger: Self)
        ensures
            logger.inner_spec() == inner,
    {
        Logger { inner }
    }

    /// The wrapped handler, to which every request is handed unchanged.
    pub fn inner(&self) -> (handler: &S)
        ensures
            *handler == self.inner_spec(),
    {
        &self.inner
    }

    /// Takes the wrapper off.
    pub fn into_inner(self) -> (handler: S)
        ensures
            handler == self.inner_spec(),
    {
        self.inner
    }
}

} // verus!
