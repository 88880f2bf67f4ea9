//! The per-attempt session: a mutable state machine that walks one immutable
//! workflow, advancing its cursor on verified outcomes and holding its place
//! on rejections.

use vstd::prelude::*;

use crate::claims::principal_view;
use crate::claims::Principal;
use crate::claims::Proof;
use crate::claims::SpecProof;
use crate::steps::spec_evaluate;
use crate::steps::SpecOutcome;
use crate::steps::StepOutcome;
use crate::steps::VerificationStep;
use crate::workflow::SpecModule;
use crate::workflow::Workflow;

verus! {

/// The mathematical state of a session: the cursor into the workflow, the
/// principal established so far, and the level of assurance of the last step
/// passed.
pub struct SpecSession {
    pub cursor: int,
    pub principal: Option<Seq<char>>,
    pub reached_loa: u32,
}

/// The state every fresh session starts in: cursor at the first step, no
/// principal, zero assurance.
pub open spec fn initial_session() -> SpecSession {
    SpecSession { cursor: 0, principal: None, reached_loa: 0 }
}

/// The transition one submission makes: the single place the state-machine
/// rules are written down.
///
/// A session whose cursor has reached the end of the workflow is terminal and
/// absorbs every submission unchanged. Otherwise the claim goes to the step
/// under the cursor. On a verified outcome the reached level of assurance
/// becomes that step's, a newly established principal overwrites the old one
/// (while an outcome without a principal retains it), and the cursor advances
/// by one. On a rejection nothing changes, so the caller may retry the same
/// step without losing earlier progress.
pub open spec fn spec_submit(
    def: Seq<SpecModule>,
    s: SpecSession,
    claim: SpecProof,
) -> SpecSession {
    if 0 <= s.cursor < def.len() {
        match spec_evaluate(def[s.cursor].step, s.principal, claim) {
            SpecOutcome::Verified { principal } => SpecSession {
                cursor: s.cursor + 1,
                principal: if principal is Some {
                    principal
                } else {
                    s.principal
                },
                reached_loa: def[s.cursor].level_of_assurance,
            },
            SpecOutcome::Rejected => s,
        }
    } else {
        s
    }
}

/// Where a session stands: still waiting on the step at `index`, or past the
/// last step.
#[derive(Debug, PartialEq, Eq, Structural)]
pub enum SessionState {
    Active { index: usize },
    Terminal,
}

/// The mathematical value of a [`SessionState`].
pub enum SpecSessionState {
    Active { index: int },
    Terminal,
}

impl View for SessionState {
    type V = SpecSessionState;

    open spec fn view(&self) -> SpecSessionState {
        match self {
            SessionState::Active { index } => SpecSessionState::Active { index: *index as int },
            SessionState::Terminal => SpecSessionState::Terminal,
        }
    }
}

/// The observable state a submission reports back: where the session stands,
/// the principal established so far, and the assurance reached.
#[derive(Debug)]
pub struct Status {
    pub state: SessionState,
    pub principal: Option<Principal>,
    pub reached_loa: u32,
}

/// The mathematical value of a [`Status`].
pub struct SpecStatus {
    pub state: SpecSessionState,
    pub principal: Option<Seq<char>>,
    pub reached_loa: u32,
}

impl View for Status {
    type V = SpecStatus;

    open spec fn view(&self) -> SpecStatus {
        SpecStatus {
            state: self.state@,
            principal: principal_view(self.principal),
            reached_loa: self.reached_loa,
        }
    }
}

/// The status a session in state `s` reports against a workflow of `def_len`
/// steps.
pub open spec fn spec_status(def_len: int, s: SpecSession) -> SpecStatus {
    SpecStatus {
        state: if s.cursor == def_len {
            SpecSessionState::Terminal
        } else {
            SpecSessionState::Active { index: s.cursor }
        },
        principal: s.principal,
        reached_loa: s.reached_loa,
    }
}

/// One authentication attempt's walk over a workflow. Exclusively owned by
/// that attempt; the workflow it borrows is shared read-only. The active step
/// is instantiated from its entry's factory the moment the cursor lands on
/// the entry, and discarded once the cursor moves past it.
pub struct Process<'a> {
    workflow: &'a Workflow,
    cursor: usize,
    active: Option<VerificationStep>,
    principal: Option<Principal>,
    reached_loa: u32,
}

impl<'a> View for Process<'a> {
    type V = SpecSession;

    closed spec fn view(&self) -> SpecSession {
        SpecSession {
            cursor: self.cursor as int,
            principal: principal_view(self.principal),
            reached_loa: self.reached_loa,
        }
    }
}

impl<'a> Process<'a> {
    /// The workflow this session walks.
    pub closed spec fn defn(&self) -> Seq<SpecModule> {
        self.workflow@
    }

    /// Internal consistency: the cursor never passes the end of the workflow,
    /// and a step instance is active exactly while some step is left to pass,
    /// in which case it is the step under the cursor.
    pub closed spec fn wf(&self) -> bool {
        &&& self.cursor <= self.defn().len()
        &&& (self.active is Some <==> self.cursor < self.defn().len())
        &&& match self.active {
            Some(step) => step@ == self.defn()[self.cursor as int].step,
            None => true,
        }
    }

    /// A fresh session over the given workflow, with the first step's
    /// instance already constructed; immediately terminal when the workflow
    /// is empty.
    pub fn new(workflow: &'a Workflow) -> (s: Process<'a>)
        ensures
            s.wf(),
            s.defn() == workflow@,
            s@ == initial_session(),
    {
        let active = if workflow.step_count() > 0 {
            Some(workflow.module_at(0).credential_validator.get())
        } else {
            None
        };
        Process { workflow, cursor: 0, active, principal: None, reached_loa: 0 }
    }

    /// Feed one claim to the session and report the resulting observable
    /// state. The session changes exactly as [`spec_submit`] says; in
    /// particular the cursor never moves backwards, and a terminal session or
    /// a rejected claim leaves the session untouched.
    pub fn process(&mut self, claim: &Proof) -> (r: Status)
        requires
            old(self).wf(),
        ensures
            final(self).wf(),
            final(self).defn() == old(self).defn(),
            final(self)@ == spec_submit(old(self).defn(), old(self)@, claim@),
            final(self)@.cursor >= old(self)@.cursor,
            r@ == spec_status(old(self).defn().len() as int, final(self)@),
    {
        let n = self.workflow.step_count();
        let outcome = match &self.active {
            Some(step) => Some(step.evaluate(&self.principal, claim)),
            None => None,
        };
        match outcome {
            Some(StepOutcome::Verified { principal }) => {
                self.reached_loa = self.workflow.module_at(self.cursor).level_of_assurance;
                match principal {
                    Some(p) => {
                        self.principal = Some(p);
                    },
                    None => {},
                }
                self.cursor = self.cursor + 1;
                if self.cursor < n {
                    self.active = Some(
                        self.workflow.module_at(self.cursor).credential_validator.get(),
                    );
                } else {
                    self.active = None;
                }
            },
            Some(StepOutcome::Rejected) => {},
            None => {},
        }
        self.status()
    }

    /// The session's current observable state, without submitting anything.
    pub fn status(&self) -> (r: Status)
        requires
            self.wf(),
        ensures
            r@ == spec_status(self.defn().len() as int, self@),
    {
        Status {
            state: if self.cursor == self.workflow.step_count() {
                SessionState::Terminal
            } else {
                SessionState::Active { index: self.cursor }
            },
            principal: match &self.principal {
                Some(p) => Some(p.duplicate()),
                None => None,
            },
            reached_loa: self.reached_loa,
        }
    }

    /// Whether every step of the workflow has been passed.
    pub fn is_terminal(&self) -> (r: bool)
        requires
            self.wf(),
        ensures
            r == (self@.cursor == self.defn().len()),
    {
        self.cursor == self.workflow.step_count()
    }
}

} // verus!
