use vstd::prelude::*;
use crate::protocol::{action_ready, CheckEnsureResult, Ensure, Meet};

verus! {

/// An action made of a closure that performs it and returns its result.
#[derive(Clone)]
pub struct MeetFn<F>(pub F);

impl<T, E, F> Meet for MeetFn<F> where F: FnOnce() -> Result<T, E> {
    type Met = T;
    type Error = E;

    open spec fn meet_requires(&self) -> bool {
        call_requires(self.0, ())
    }

    open spec fn meet_ensures(&self, r: Result<T, E>) -> bool {
        call_ensures(self.0, (), r)
    }

    fn meet(self) -> (r: Result<T, E>) {
        let f = self.0;
        f()
    }
}

impl<F> MeetFn<F> {
    /// An action made of a closure of type `F` may be performed where the closure may be
    /// called, and yields what the closure may return. Verus does not select the `Meet`
    /// impl above for a concrete closure type by itself; this states it for every
    /// `MeetFn<F>`, with `self` fixing `F`.
    pub proof fn lemma_closure_spec<T, E>(self) where F: FnOnce() -> Result<T, E>
        ensures
            forall|m: Self| #[trigger] m.meet_requires() <==> call_requires(m.0, ()),
            forall|m: Self, r: Result<T, E>| #[trigger]
                m.meet_ensures(r) <==> call_ensures(m.0, (), r),
    {
    }
}

/// An object made of a closure that inspects it: the closure returns whether the target
/// state is `Met`, or the action that brings it about.
#[derive(Clone)]
pub struct EnsureFn<F>(pub F);

impl<T, E, A, F> Ensure<T> for EnsureFn<F> where
    F: FnOnce() -> Result<CheckEnsureResult<T, A>, E>,
    A: Meet<Met = T, Error = E>,
 {
    type EnsureAction = A;

    open spec fn check_requires(&self) -> bool {
        &&& call_requires(self.0, ())
        &&& forall|c| call_ensures(self.0, (), c) ==> action_ready(c)
    }

    open spec fn check_ensures(&self, r: Result<CheckEnsureResult<T, A>, E>) -> bool {
        call_ensures(self.0, (), r)
    }

    fn check_ensure(self) -> (r: Result<CheckEnsureResult<T, A>, E>) {
        let f = self.0;
        f()
    }
}

impl<F> EnsureFn<F> {
    /// An object made of a closure of type `F` may be inspected where the closure may be
    /// called and any action it may return may be performed, and the inspection yields
    /// what the closure may return. Verus does not select the `Ensure` impl above for a
    /// concrete closure type by itself; this states it for every `EnsureFn<F>`, with
    /// `self` fixing `F`.
    pub proof fn lemma_closure_spec<T, E, A>(self) where
        F: FnOnce() -> Result<CheckEnsureResult<T, A>, E>,
        A: Meet<Met = T, Error = E>,

        ensures
            forall|s: Self| #[trigger]
                <Self as Ensure<T>>::check_requires(&s) <==> {
                    &&& call_requires(s.0, ())
                    &&& forall|c| call_ensures(s.0, (), c) ==> action_ready(c)
                },
            forall|s: Self, r: Result<CheckEnsureResult<T, A>, E>| #[trigger]
                <Self as Ensure<T>>::check_ensures(&s, r) <==> call_ensures(s.0, (), r),
    {
    }
}

} // verus!
