//! The guarantees the session state machine gives across whole runs, proved
//! once and for all over [`spec_submit`] — the same function every
//! [`Process::process`](crate::session::Process::process) call is proved to
//! follow.

use vstd::prelude::*;

use crate::claims::SpecProof;
use crate::session::spec_submit;
use crate::session::SpecSession;
use crate::steps::recognizes;
use crate::steps::spec_evaluate;
use crate::steps::SpecOutcome;
use crate::steps::SpecStep;
use crate::workflow::SpecModule;

verus! {

/// The session state after a whole sequence of submissions, first claim
/// first.
pub open spec fn spec_run(
    def: Seq<SpecModule>,
    s: SpecSession,
    claims: Seq<SpecProof>,
) -> SpecSession
    decreases claims.len(),
{
    if claims.len() == 0 {
        s
    } else {
        spec_run(def, spec_submit(def, s, claims[0]), claims.skip(1))
    }
}

/// One submission never moves the cursor backwards.
pub proof fn lemma_submit_cursor_monotonic(def: Seq<SpecModule>, s: SpecSession, claim: SpecProof)
    ensures
        spec_submit(def, s, claim).cursor >= s.cursor,
{
}

/// Across any sequence of submissions the cursor is monotonically
/// non-decreasing: no run of claims, verified or rejected, ever moves a
/// session back to an earlier step.
pub proof fn lemma_cursor_monotonic(def: Seq<SpecModule>, s: SpecSession, claims: Seq<SpecProof>)
    ensures
        spec_run(def, s, claims).cursor >= s.cursor,
    decreases claims.len(),
{
    if claims.len() > 0 {
        lemma_cursor_monotonic(def, spec_submit(def, s, claims[0]), claims.skip(1));
    }
}

/// Resubmission invariance: a submission whose claim the active step rejects
/// — and likewise any submission to a terminal session — leaves the whole
/// observable state (cursor, principal, reached level of assurance) exactly
/// as it was, so the caller may retry freely.
pub proof fn lemma_rejected_submission_invariant(
    def: Seq<SpecModule>,
    s: SpecSession,
    claim: SpecProof,
)
    requires
        0 <= s.cursor < def.len() ==> spec_evaluate(def[s.cursor].step, s.principal, claim)
            is Rejected,
    ensures
        spec_submit(def, s, claim) == s,
{
}

/// Terminal absorption: once the cursor has reached the end of the workflow,
/// any further sequence of submissions leaves the session unchanged.
pub proof fn lemma_terminal_absorbing(def: Seq<SpecModule>, s: SpecSession, claims: Seq<SpecProof>)
    requires
        s.cursor == def.len(),
    ensures
        spec_run(def, s, claims) == s,
    decreases claims.len(),
{
    if claims.len() > 0 {
        lemma_terminal_absorbing(def, spec_submit(def, s, claims[0]), claims.skip(1));
    }
}

/// Type-mismatch safety: a claim variant the evaluating step does not
/// recognize is always rejected, whatever principal is established and
/// whatever data the step or the claim carries.
pub proof fn lemma_unrecognized_claim_rejected(
    step: SpecStep,
    current: Option<Seq<char>>,
    claim: SpecProof,
)
    requires
        !recognizes(step, claim),
    ensures
        spec_evaluate(step, current, claim) is Rejected,
{
}

/// A verified outcome that establishes no principal retains the one already
/// established: a later step never erases an identity an earlier step set.
pub proof fn lemma_submit_principal_retained(
    def: Seq<SpecModule>,
    s: SpecSession,
    claim: SpecProof,
)
    requires
        0 <= s.cursor < def.len(),
        spec_evaluate(def[s.cursor].step, s.principal, claim) matches SpecOutcome::Verified {
            principal,
        } && principal is None,
    ensures
        spec_submit(def, s, claim).principal == s.principal,
{
}

/// Principal retention: once a principal is established, no sequence of
/// submissions — rejections, verified steps without an identity, or verified
/// steps that overwrite it with a new identity — ever takes the session back
/// to having none.
pub proof fn lemma_principal_never_cleared(
    def: Seq<SpecModule>,
    s: SpecSession,
    claims: Seq<SpecProof>,
)
    requires
        s.principal is Some,
    ensures
        spec_run(def, s, claims).principal is Some,
    decreases claims.len(),
{
    if claims.len() > 0 {
        lemma_principal_never_cleared(def, spec_submit(def, s, claims[0]), claims.skip(1));
    }
}

} // verus!
