//! Idempotent convergence: an object in an unknown external state is inspected and, only
//! where it is not in its target state yet, brought into it by one corrective action.

mod adapter;
mod existence;
mod laws;
mod protocol;

pub use adapter::{EnsureFn, MeetFn};
pub use existence::{Absent, Existential, Present};
pub use laws::{
    lemma_converge_when_action_fails, lemma_converge_when_action_succeeds,
    lemma_converge_when_check_fails, lemma_converge_when_met, lemma_verify_when_recheck_met,
    lemma_verify_when_recheck_unmet,
};
pub use protocol::{
    action_ready, converge_follows, ensure, ensure_follows, recheck_follows, recheck_result,
    verify_follows,
    CheckEnsureResult, Convergence, Ensure, Meet, VerificationError,
};
