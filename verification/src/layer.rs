//! Layer composition: a layer wraps a connector and yields a new connector.
//!
//! Layers compose in attachment order: the first-attached layer becomes the
//! innermost wrapper around the base connector and the last-attached one
//! the outermost, so calls pass through layers in reverse-attachment order
//! before reaching the base connector. Attaching a layer is a pure
//! transformation; no I/O happens at attach time.

use vstd::prelude::*;

use crate::provider::Provider;

verus! {

/// A transformation from one connector to another: wrap `inner` and yield
/// a new connector that also satisfies the connector contract.
pub trait Layer<P: Provider>: Sized {
    /// The connector type this layer produces.
    type Layered: Provider;

    /// How the produced connector relates to the wrapped one: each layer
    /// states at least which connector it owns.
    spec fn wraps(&self, inner: P, r: Self::Layered) -> bool;

    /// Wrap the inner connector with this layer.
    fn layer(&self, inner: P) -> (r: Self::Layered)
        ensures
            self.wraps(inner, r),
    ;
}

} // verus!
