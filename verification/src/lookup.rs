//! Applying a function to the logger that is looked up.

use vstd::prelude::*;

verus! {

/// A function that is to be applied to the current logger exactly once, by
/// whoever looks that logger up.
pub struct PendingCall<F, R> {
    /// The function, until it was applied.
    pub function: Option<F>,
    /// What the function returned, once it was applied.
    pub result: Option<R>,
}

impl<F, R> PendingCall<F, R> {
    /// A function that was not applied yet.
    pub fn new(function: F) -> (call: Self)
        ensures
            call == (PendingCall::<F, R> { function: Some(function), result: None }),
    {
        PendingCall { function: Some(function), result: None }
    }

    /// Whether the function can still be applied.
    pub fn is_pending(&self) -> (pending: bool)
        ensures
            pending == self.function is Some,
    {
        self.function.is_some()
    }

    /// Applies the function to a logger. It must not have been applied before.
    pub fn apply<L>(&mut self, logger: &L) where F: FnOnce(&L) -> R
        requires
            old(self).function is Some,
            call_requires(old(self).function->0, (logger,)),
        ensures
            final(self).function is None,
            final(self).result is Some,
            call_ensures(old(self).function->0, (logger,), final(self).result->0),
    {
        if let Some(function) = self.function.take() {
            self.result = Some(function(logger));
        }
    }

    /// What the function returned, if it was applied.
    pub fn finish(self) -> (result: Option<R>)
        ensures
            result == self.result,
    {
        self.result
    }
}

} // verus!
