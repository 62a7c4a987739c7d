//! A pass-through middleware and the layer that applies it.

use vstd::prelude::*;

verus! {

/// A service that hands every request to the service inside it.
#[derive(Debug, Clone)]
pub struct MyMiddleware<S> {
    pub inner: S,
}

/// Wraps services in `MyMiddleware`.
#[derive(Debug, Clone, Default)]
pub struct MyMiddlewareLayer {}

impl MyMiddlewareLayer {
    /// The middleware around `service`.
    pub fn layer<S>(&self, service: S) -> (wrapped: MyMiddleware<S>)
        ensures
            wrapped.inner == service,
    {
        MyMiddleware { inner: service }
    }
}

} // verus!
