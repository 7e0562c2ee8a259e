//! Shared-ownership handles passed between the pipeline's tasks.

use vstd::prelude::*;
use std::sync::Arc;

verus! {

/// A cloneable handle to a value shared between concurrent tasks.
pub struct ArcWrap<T>(Arc<T>);

/// Relies on std's `Arc::clone`: the new handle refers to the same value.
#[verifier::external_body]
fn arc_clone<T>(a: &Arc<T>) -> (r: Arc<T>)
    ensures
        r == *a,
{
    Arc::clone(a)
}

impl<T> ArcWrap<T> {
    /// The shared value this handle refers to.
    pub closed spec fn spec_inner(&self) -> Arc<T> {
        self.0
    }

    /// Wrap a value for sharing.
    pub fn new(value: T) -> (r: ArcWrap<T>)
        ensures
            r.spec_inner() == value,
    {
        ArcWrap(Arc::new(value))
    }

    /// A fresh shared handle to the held value.
    pub fn inner(&self) -> (r: Arc<T>)
        ensures
            r == self.spec_inner(),
    {
        arc_clone(&self.0)
    }
}

impl<T> Clone for ArcWrap<T> {
    /// Cloning shares the same value.
    fn clone(&self) -> (r: Self)
        ensures
            r.spec_inner() == self.spec_inner(),
    {
        ArcWrap(arc_clone(&self.0))
    }
}

} // verus!
