use vstd::prelude::*;
use vstd::pervasive::strictly_cloned;
use crate::protocol::{
    action_ready, converge_follows, verify_follows, CheckEnsureResult, Convergence, Ensure, Meet,
    VerificationError,
};

verus! {

/// Converging is idempotent: where the inspection can only find the target state `Met`,
/// `converge` returns `AlreadySatisfied` with the value that the inspection found, and
/// no action is performed.
pub proof fn lemma_converge_when_met<T, R: Ensure<T>>(
    s: R,
    r: Result<Convergence<T>, <R::EnsureAction as Meet>::Error>,
)
    requires
        forall|c|
            #[trigger] s.check_ensures(c) && action_ready(c) ==> c matches Ok(
                CheckEnsureResult::Met(_),
            ),
        exists|c| s.check_ensures(c) && action_ready(c) && converge_follows(c, r),
    ensures
        r matches Ok(Convergence::AlreadySatisfied(m)) && s.check_ensures(
            Ok(CheckEnsureResult::Met(m)),
        ),
{
}

/// Where the inspection can only ask for an action, and that action can only succeed,
/// `converge` performs it and returns `NewlySatisfied` with the action's value.
pub proof fn lemma_converge_when_action_succeeds<T, R: Ensure<T>>(
    s: R,
    r: Result<Convergence<T>, <R::EnsureAction as Meet>::Error>,
)
    requires
        forall|c| #[trigger]
            s.check_ensures(c) && action_ready(c) ==> (c matches Ok(
                CheckEnsureResult::EnsureAction(a),
            ) && forall|m| #[trigger] a.meet_ensures(m) ==> m is Ok),
        exists|c| s.check_ensures(c) && action_ready(c) && converge_follows(c, r),
    ensures
        r matches Ok(Convergence::NewlySatisfied(v)) && exists|a: R::EnsureAction|
            s.check_ensures(Ok(CheckEnsureResult::EnsureAction(a))) && a.meet_ensures(Ok(v)),
{
}

/// Where the inspection can only fail, `converge` returns one of its errors, and no
/// action is made or performed.
pub proof fn lemma_converge_when_check_fails<T, R: Ensure<T>>(
    s: R,
    r: Result<Convergence<T>, <R::EnsureAction as Meet>::Error>,
)
    requires
        forall|c| #[trigger] s.check_ensures(c) && action_ready(c) ==> c is Err,
        exists|c| s.check_ensures(c) && action_ready(c) && converge_follows(c, r),
    ensures
        r matches Err(e) && s.check_ensures(Err(e)),
{
}

/// Where the inspection can only ask for an action, and that action can only fail,
/// `converge` returns the action's error unchanged.
pub proof fn lemma_converge_when_action_fails<T, R: Ensure<T>>(
    s: R,
    r: Result<Convergence<T>, <R::EnsureAction as Meet>::Error>,
)
    requires
        forall|c| #[trigger]
            s.check_ensures(c) && action_ready(c) ==> (c matches Ok(
                CheckEnsureResult::EnsureAction(a),
            ) && forall|m| #[trigger] a.meet_ensures(m) ==> m is Err),
        exists|c| s.check_ensures(c) && action_ready(c) && converge_follows(c, r),
    ensures
        r matches Err(e) && exists|a: R::EnsureAction|
            s.check_ensures(Ok(CheckEnsureResult::EnsureAction(a))) && a.meet_ensures(Err(e)),
{
}

/// Where the inspection can only ask for an action, the action can only succeed, and a
/// second inspection of a copy of the object, made by `clone`, can only find the target
/// state `Met`, `ensure_verify` returns the action's value.
pub proof fn lemma_verify_when_recheck_met<T, R: Ensure<T> + Clone>(
    s: R,
    r: Result<T, <R::EnsureAction as Meet>::Error>,
)
    where <R::EnsureAction as Meet>::Error: From<VerificationError>,
    requires
        forall|c| #[trigger]
            s.check_ensures(c) && action_ready(c) ==> (c matches Ok(
                CheckEnsureResult::EnsureAction(a),
            ) && forall|m| #[trigger] a.meet_ensures(m) ==> m is Ok),
        forall|d: R, c2|
            strictly_cloned(s, d) && #[trigger] d.check_ensures(c2) && action_ready(c2)
                ==> c2 matches Ok(CheckEnsureResult::Met(_)),
        exists|c|
            s.check_ensures(c) && action_ready(c) && verify_follows(
                c,
                |c2|
                    exists|d: R|
                        strictly_cloned(s, d) && d.check_ensures(c2) && action_ready(c2),
                r,
            ),
    ensures
        r matches Ok(v) && exists|a: R::EnsureAction|
            s.check_ensures(Ok(CheckEnsureResult::EnsureAction(a))) && a.meet_ensures(Ok(v)),
{
}

/// Where the inspection can only ask for an action, the action can only succeed, and a
/// second inspection of a copy of the object, made by `clone`, still can only ask for an action,
/// `ensure_verify` fails with the error made from `VerificationError`, not with the
/// action's value.
pub proof fn lemma_verify_when_recheck_unmet<T, R: Ensure<T> + Clone>(
    s: R,
    r: Result<T, <R::EnsureAction as Meet>::Error>,
)
    where <R::EnsureAction as Meet>::Error: From<VerificationError>,
    requires
        forall|c| #[trigger]
            s.check_ensures(c) && action_ready(c) ==> (c matches Ok(
                CheckEnsureResult::EnsureAction(a),
            ) && forall|m| #[trigger] a.meet_ensures(m) ==> m is Ok),
        forall|d: R, c2|
            strictly_cloned(s, d) && #[trigger] d.check_ensures(c2) && action_ready(c2)
                ==> c2 matches Ok(CheckEnsureResult::EnsureAction(_)),
        exists|c|
            s.check_ensures(c) && action_ready(c) && verify_follows(
                c,
                |c2|
                    exists|d: R|
                        strictly_cloned(s, d) && d.check_ensures(c2) && action_ready(c2),
                r,
            ),
    ensures
        r matches Err(e) && call_ensures(
            <R::EnsureAction as Meet>::Error::from,
            (VerificationError,),
            e,
        ),
{
}

} // verus!
