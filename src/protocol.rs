use vstd::prelude::*;
use vstd::pervasive::strictly_cloned;

verus! {

/// Outcome of inspecting an object: the target state already holds (`Met`), or the
/// action that brings the object into it (`EnsureAction`).
#[derive(Debug, PartialEq, Eq)]
pub enum CheckEnsureResult<M, A> {
    Met(M),
    EnsureAction(A),
}

/// How a convergence ended well: nothing had to be done, or an action was performed.
#[derive(Debug, PartialEq, Eq)]
pub enum Convergence<T> {
    AlreadySatisfied(T),
    NewlySatisfied(T),
}

/// The error of `Ensure::ensure_verify` when the object, inspected again after its action
/// succeeded, is still not in its target state.
#[derive(Debug)]
pub struct VerificationError;

impl VerificationError {
    /// The text that describes this error.
    pub fn message(&self) -> (r: &'static str)
        ensures
            r@ == "verification of target state failed after it was ensured to be met"@,
    {
        proof {
            reveal_strlit("verification of target state failed after it was ensured to be met");
        }
        "verification of target state failed after it was ensured to be met"
    }
}

/// An operation that brings an object into its target state; it is consumed when
/// performed, so it runs at most once.
pub trait Meet: Sized {
    type Met;
    type Error;

    /// Whether the action may be performed; by default it always may.
    open spec fn meet_requires(&self) -> bool {
        true
    }

    /// The outcomes that performing the action may produce; by default nothing is known
    /// of them.
    open spec fn meet_ensures(&self, r: Result<Self::Met, Self::Error>) -> bool {
        true
    }

    /// Performs the action.
    fn meet(self) -> (r: Result<Self::Met, Self::Error>)
        requires
            self.meet_requires(),
        ensures
            self.meet_ensures(r),
    ;
}

/// An inspection whose outcome holds an action holds one that may be performed.
pub open spec fn action_ready<T, A: Meet<Met = T>>(
    c: Result<CheckEnsureResult<T, A>, A::Error>,
) -> bool {
    match c {
        Ok(CheckEnsureResult::EnsureAction(a)) => a.meet_requires(),
        _ => true,
    }
}

/// What converging may return once the inspection produced `c`: the inspection's
/// failure, the value already there, or what the action returned.
pub open spec fn converge_follows<T, A: Meet<Met = T>>(
    c: Result<CheckEnsureResult<T, A>, A::Error>,
    r: Result<Convergence<T>, A::Error>,
) -> bool {
    match c {
        Err(e) => r == Err::<Convergence<T>, A::Error>(e),
        Ok(CheckEnsureResult::Met(m)) => r == Ok::<Convergence<T>, A::Error>(
            Convergence::AlreadySatisfied(m),
        ),
        Ok(CheckEnsureResult::EnsureAction(a)) => match r {
            Ok(Convergence::NewlySatisfied(v)) => a.meet_ensures(Ok(v)),
            Ok(Convergence::AlreadySatisfied(_)) => false,
            Err(e) => a.meet_ensures(Err(e)),
        },
    }
}

/// What ensuring may return once the inspection produced `c`: the inspection's failure,
/// the value already there, or what the action returned.
pub open spec fn ensure_follows<T, A: Meet<Met = T>>(
    c: Result<CheckEnsureResult<T, A>, A::Error>,
    r: Result<T, A::Error>,
) -> bool {
    match c {
        Err(e) => r == Err::<T, A::Error>(e),
        Ok(CheckEnsureResult::Met(m)) => r == Ok::<T, A::Error>(m),
        Ok(CheckEnsureResult::EnsureAction(a)) => a.meet_ensures(r),
    }
}

/// What a verified convergence may return once the action returned `v` and the second
/// inspection, of a copy of the object, produced `c`: its failure, `v` where the target
/// state now holds, and otherwise the error made from `VerificationError`.
pub open spec fn recheck_follows<T, A: Meet<Met = T>>(
    c: Result<CheckEnsureResult<T, A>, A::Error>,
    v: T,
    r: Result<T, A::Error>,
) -> bool where A::Error: From<VerificationError> {
    match c {
        Err(e) => r == Err::<T, A::Error>(e),
        Ok(CheckEnsureResult::Met(_)) => r == Ok::<T, A::Error>(v),
        Ok(CheckEnsureResult::EnsureAction(_)) => match r {
            Err(e) => call_ensures(A::Error::from, (VerificationError,), e),
            Ok(_) => false,
        },
    }
}

/// What a verified convergence may return once the first inspection produced `c`, where
/// `recheck` holds of the outcomes that the second inspection, of a copy of the object,
/// may produce: as for `ensure`, but the action's value only where that second
/// inspection finds the target state `Met`.
pub open spec fn verify_follows<T, A: Meet<Met = T>>(
    c: Result<CheckEnsureResult<T, A>, A::Error>,
    recheck: spec_fn(Result<CheckEnsureResult<T, A>, A::Error>) -> bool,
    r: Result<T, A::Error>,
) -> bool where A::Error: From<VerificationError> {
    match c {
        Ok(CheckEnsureResult::EnsureAction(a)) => exists|m: Result<T, A::Error>|
            #[trigger] a.meet_ensures(m) && match m {
                Err(e) => r == Err::<T, A::Error>(e),
                Ok(v) => exists|c2| recheck(c2) && recheck_follows(c2, v, r),
            },
        _ => ensure_follows(c, r),
    }
}

/// The result of a verified convergence once the action returned `v` and the second
/// inspection, of a copy of the object, produced `c`: the inspection's failure, `v` where
/// the target state now holds, and otherwise the error made from `VerificationError`.
pub fn recheck_result<T, A: Meet<Met = T>>(
    c: Result<CheckEnsureResult<T, A>, A::Error>,
    v: T,
) -> (r: Result<T, A::Error>) where A::Error: From<VerificationError>
    ensures
        recheck_follows(c, v, r),
{
    match c {
        Err(e) => Err(e),
        Ok(CheckEnsureResult::Met(_)) => Ok(v),
        Ok(CheckEnsureResult::EnsureAction(_)) => Err(A::Error::from(VerificationError)),
    }
}

/// Implemented by objects that can be brought into the target state `T`.
pub trait Ensure<T>: Sized {
    type EnsureAction: Meet<Met = T>;

    /// Whether the object may be inspected; by default it always may.
    open spec fn check_requires(&self) -> bool {
        true
    }

    /// The outcomes that inspecting the object may produce; by default nothing is known of
    /// them.
    open spec fn check_ensures(
        &self,
        r: Result<CheckEnsureResult<T, Self::EnsureAction>, <Self::EnsureAction as Meet>::Error>,
    ) -> bool {
        true
    }

    /// Inspects the object: either the target state is already `Met`, or the action that
    /// brings the object into it.
    fn check_ensure(self) -> (r: Result<
        CheckEnsureResult<T, Self::EnsureAction>,
        <Self::EnsureAction as Meet>::Error,
    >)
        requires
            self.check_requires(),
        ensures
            self.check_ensures(r),
            action_ready(r),
    ;

    /// Inspects the object and, only where the target state does not hold yet, performs
    /// the action once; tells which of the two happened.
    fn converge(self) -> (r: Result<Convergence<T>, <Self::EnsureAction as Meet>::Error>)
        requires
            self.check_requires(),
        ensures
            exists|c| self.check_ensures(c) && action_ready(c) && converge_follows(c, r),
    {
        let c = self.check_ensure();
        match c {
            Err(e) => Err(e),
            Ok(CheckEnsureResult::Met(m)) => Ok(Convergence::AlreadySatisfied(m)),
            Ok(CheckEnsureResult::EnsureAction(a)) => match a.meet() {
                Ok(v) => Ok(Convergence::NewlySatisfied(v)),
                Err(e) => Err(e),
            },
        }
    }

    /// Brings the object into its target state, by `check_ensure` and, if the state is not
    /// `Met`, one `meet` of the action; returns the value either way.
    fn ensure(self) -> (r: Result<T, <Self::EnsureAction as Meet>::Error>)
        requires
            self.check_requires(),
        ensures
            exists|c| self.check_ensures(c) && action_ready(c) && ensure_follows(c, r),
    {
        match self.converge() {
            Ok(Convergence::AlreadySatisfied(v)) => Ok(v),
            Ok(Convergence::NewlySatisfied(v)) => Ok(v),
            Err(e) => Err(e),
        }
    }

    /// Like `ensure`, but where an action was performed, inspects a copy of the object,
    /// made beforehand, once more: the action's value is returned only where that second
    /// inspection finds the target state `Met`.
    fn ensure_verify(self) -> (r: Result<T, <Self::EnsureAction as Meet>::Error>) where
        Self: Clone,
        <Self::EnsureAction as Meet>::Error: From<VerificationError>,

        requires
            self.check_requires(),
            forall|d: Self| #[trigger] strictly_cloned(self, d) ==> d.check_requires(),
        ensures
            exists|c|
                self.check_ensures(c) && action_ready(c) && verify_follows(
                    c,
                    |c2|
                        exists|d: Self|
                            strictly_cloned(self, d) && d.check_ensures(c2) && action_ready(c2),
                    r,
                ),
    {
        let verify = self.clone();
        assert(strictly_cloned(self, verify));
        let c = self.check_ensure();
        match c {
            Err(e) => Err(e),
            Ok(CheckEnsureResult::Met(met)) => Ok(met),
            Ok(CheckEnsureResult::EnsureAction(action)) => {
                let result = action.meet();
                match result {
                    Err(e) => Err(e),
                    Ok(v) => {
                        let c2 = verify.check_ensure();
                        recheck_result(c2, v)
                    },
                }
            },
        }
    }
}

/// Runs `ensure()` on an object and returns its value; convenient with closures wrapped
/// in `EnsureFn`.
pub fn ensure<T, E, R, A>(subject: R) -> (r: Result<T, E>) where
    R: Ensure<T, EnsureAction = A>,
    A: Meet<Met = T, Error = E>,

    requires
        subject.check_requires(),
    ensures
        exists|c| subject.check_ensures(c) && action_ready(c) && ensure_follows(c, r),
{
    subject.ensure()
}

} // verus!
