//! Shared dependencies that command handlers receive, such as connection
//! pools or counters.

use std::sync::Arc;
use vstd::prelude::*;

verus! {

/// Another handle on the same shared value.
///
/// Trusted wrapper around `Arc::clone`: the new handle points to the same
/// allocation, so it refers to the same value.
#[verifier::external_body]
fn share<T>(a: &Arc<T>) -> (res: Arc<T>)
    ensures
        res == *a,
{
    Arc::clone(a)
}

/// A shared dependency, handed to command handlers.
pub struct Context<T>(Arc<T>);

impl<T> View for Context<T> {
    type V = T;

    closed spec fn view(&self) -> T {
        *self.0
    }
}

impl<T> Clone for Context<T> {
    /// Another handle on the same value.
    fn clone(&self) -> (res: Self)
        ensures
            res@ == self@,
    {
        Context(share(&self.0))
    }
}

impl<T: Send + Sync> Context<T> {
    /// Shares `value`.
    pub fn new(value: T) -> (res: Self)
        ensures
            res@ == value,
    {
        Context(Arc::new(value))
    }
}

impl<T> Context<T> {
    /// Wraps a value that is already shared.
    pub fn from_arc(value: Arc<T>) -> (res: Self)
        ensures
            res@ == *value,
    {
        Context(value)
    }

    /// Another handle on the shared value.
    pub fn as_arc(&self) -> (res: Arc<T>)
        ensures
            *res == self@,
    {
        share(&self.0)
    }

    /// The handle on the shared value.
    pub fn into_inner(self) -> (res: Arc<T>)
        ensures
            *res == self@,
    {
        self.0
    }

    /// The shared value.
    pub fn get(&self) -> (res: &T)
        ensures
            *res == self@,
    {
        &*self.0
    }
}

impl<T> core::ops::Deref for Context<T> {
    type Target = T;

    /// The shared value.
    fn deref(&self) -> (res: &T)
        ensures
            *res == self@,
    {
        &*self.0
    }
}

} // verus!
