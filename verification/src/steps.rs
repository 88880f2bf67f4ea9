//! Verification steps: pluggable strategies that inspect one claim and
//! report whether it verified, together with the factory that produces a
//! fresh step instance for each session.

use vstd::prelude::*;

use crate::claims::principal_view;
use crate::claims::Principal;
use crate::claims::Proof;
use crate::claims::SpecProof;

verus! {

/// One record of a read-only credential directory: a user name and the
/// secret that proves it.
#[derive(Debug)]
pub struct Credential {
    pub user: String,
    pub secret: String,
}

/// The mathematical value of a [`Credential`].
pub struct SpecCredential {
    pub user: Seq<char>,
    pub secret: Seq<char>,
}

impl View for Credential {
    type V = SpecCredential;

    open spec fn view(&self) -> SpecCredential {
        SpecCredential { user: self.user@, secret: self.secret@ }
    }
}

impl DeepView for Credential {
    type V = SpecCredential;

    open spec fn deep_view(&self) -> SpecCredential {
        self.view()
    }
}

impl Credential {
    pub fn new(user: String, secret: String) -> (r: Credential)
        ensures
            r@.user == user@,
            r@.secret == secret@,
    {
        Credential { user, secret }
    }

    /// A fresh copy holding the same user and secret.
    pub fn duplicate(&self) -> (r: Credential)
        ensures
            r@ == self@,
    {
        Credential { user: self.user.clone(), secret: self.secret.clone() }
    }
}

/// The secret stored for `user`, searching the directory in order and taking
/// the first record whose user matches; `None` when no record matches.
pub open spec fn spec_lookup_from(dir: Seq<SpecCredential>, user: Seq<char>, i: int) -> Option<
    Seq<char>,
>
    decreases dir.len() - i,
{
    if i < 0 || i >= dir.len() {
        None
    } else if dir[i].user == user {
        Some(dir[i].secret)
    } else {
        spec_lookup_from(dir, user, i + 1)
    }
}

/// The secret stored for `user` in the directory, if any.
pub open spec fn spec_lookup(dir: Seq<SpecCredential>, user: Seq<char>) -> Option<Seq<char>> {
    spec_lookup_from(dir, user, 0)
}

/// First-match lookup of a user's stored secret in a credential directory.
fn lookup<'d>(directory: &'d Vec<Credential>, user: &String) -> (r: Option<&'d String>)
    ensures
        match r {
            Some(secret) => spec_lookup(directory.deep_view(), user@) == Some(secret@),
            None => spec_lookup(directory.deep_view(), user@) is None,
        },
{
    let ghost dir = directory.deep_view();
    let n = directory.len();
    for i in 0..n
        invariant
            n == dir.len(),
            dir == directory.deep_view(),
            spec_lookup(dir, user@) == spec_lookup_from(dir, user@, i as int),
    {
        if directory[i].user == *user {
            return Some(&directory[i].secret);
        }
    }
    None
}

/// The outcome one verification step reports for one claim. A rejection
/// deliberately carries no reason: a wrong secret and an unrecognized claim
/// variant are indistinguishable, so probing cannot reveal which claim shape
/// the step expects.
#[derive(Debug)]
pub enum StepOutcome {
    /// The claim verified; the step may also have established an identity.
    Verified { principal: Option<Principal> },
    /// The claim did not verify; nothing about the session may change.
    Rejected,
}

/// The mathematical value of a [`StepOutcome`].
pub enum SpecOutcome {
    Verified { principal: Option<Seq<char>> },
    Rejected,
}

impl View for StepOutcome {
    type V = SpecOutcome;

    open spec fn view(&self) -> SpecOutcome {
        match self {
            StepOutcome::Verified { principal } => SpecOutcome::Verified {
                principal: match principal {
                    Some(p) => Some(p@),
                    None => None,
                },
            },
            StepOutcome::Rejected => SpecOutcome::Rejected,
        }
    }
}

/// A verification strategy. Each variant recognizes exactly one [`Proof`]
/// variant and rejects every other, so a step can never fault on a claim
/// shape it does not understand.
#[derive(Debug)]
pub enum VerificationStep {
    /// Verifies a user/secret claim against an injected read-only credential
    /// directory; establishes the claimed user as principal on success.
    SecretMatch { directory: Vec<Credential> },
    /// Verifies a numeric one-time code against a fixed expected value;
    /// establishes assurance but never an identity.
    OneTimeCode { expected: u32 },
}

/// The mathematical value of a [`VerificationStep`].
pub enum SpecStep {
    SecretMatch { directory: Seq<SpecCredential> },
    OneTimeCode { expected: u32 },
}

impl View for VerificationStep {
    type V = SpecStep;

    open spec fn view(&self) -> SpecStep {
        match self {
            VerificationStep::SecretMatch { directory } => SpecStep::SecretMatch {
                directory: directory.deep_view(),
            },
            VerificationStep::OneTimeCode { expected } => SpecStep::OneTimeCode {
                expected: *expected,
            },
        }
    }
}

/// Whether a step's strategy recognizes the presented claim variant at all.
pub open spec fn recognizes(step: SpecStep, claim: SpecProof) -> bool {
    match step {
        SpecStep::SecretMatch { .. } => claim is UserSecret,
        SpecStep::OneTimeCode { .. } => claim is OneTimeCode,
    }
}

/// What one evaluation of a step returns: the single place the verification
/// rules are written down.
///
/// A secret-match step verifies exactly when the directory's first record for
/// the claimed user carries the presented secret, and then establishes the
/// claimed user as principal. A one-time-code step verifies exactly when the
/// presented code equals the expected one, and never establishes an identity.
/// A claim variant the step does not recognize is rejected. The principal
/// established so far is offered to every step; these two strategies ignore
/// it.
pub open spec fn spec_evaluate(
    step: SpecStep,
    current: Option<Seq<char>>,
    claim: SpecProof,
) -> SpecOutcome {
    match step {
        SpecStep::SecretMatch { directory } => match claim {
            SpecProof::UserSecret { user, secret } => {
                match spec_lookup(directory, user) {
                    Some(stored) => if stored == secret {
                        SpecOutcome::Verified { principal: Some(user) }
                    } else {
                        SpecOutcome::Rejected
                    },
                    None => SpecOutcome::Rejected,
                }
            },
            _ => SpecOutcome::Rejected,
        },
        SpecStep::OneTimeCode { expected } => match claim {
            SpecProof::OneTimeCode { code } => if code == expected {
                SpecOutcome::Verified { principal: None }
            } else {
                SpecOutcome::Rejected
            },
            _ => SpecOutcome::Rejected,
        },
    }
}

impl VerificationStep {
    /// A secret-match step over the given read-only credential directory.
    pub fn secret_match(directory: Vec<Credential>) -> (r: VerificationStep)
        ensures
            r@ == (SpecStep::SecretMatch { directory: directory.deep_view() }),
    {
        VerificationStep::SecretMatch { directory }
    }

    /// A one-time-code step expecting the given code.
    pub fn one_time_code(expected: u32) -> (r: VerificationStep)
        ensures
            r@ == (SpecStep::OneTimeCode { expected }),
    {
        VerificationStep::OneTimeCode { expected }
    }

    /// Evaluate one claim, given the principal established so far. Pure with
    /// respect to session state: the step only reads its own immutable data.
    pub fn evaluate(&self, current: &Option<Principal>, claim: &Proof) -> (r: StepOutcome)
        ensures
            r@ == spec_evaluate(self@, principal_view(*current), claim@),
    {
        match self {
            VerificationStep::SecretMatch { directory } => match claim {
                Proof::UserSecret { user, secret } => {
                    match lookup(directory, user) {
                        Some(stored) => if *stored == *secret {
                            StepOutcome::Verified { principal: Some(Principal(user.clone())) }
                        } else {
                            StepOutcome::Rejected
                        },
                        None => StepOutcome::Rejected,
                    }
                },
                _ => StepOutcome::Rejected,
            },
            VerificationStep::OneTimeCode { expected } => match claim {
                Proof::OneTimeCode { code } => if *code == *expected {
                    StepOutcome::Verified { principal: None }
                } else {
                    StepOutcome::Rejected
                },
                _ => StepOutcome::Rejected,
            },
        }
    }

    /// A fresh step instance with the same strategy and the same immutable
    /// data.
    pub fn duplicate(&self) -> (r: VerificationStep)
        ensures
            r@ == self@,
    {
        match self {
            VerificationStep::SecretMatch { directory } => {
                let mut copy: Vec<Credential> = Vec::new();
                let n = directory.len();
                for i in 0..n
                    invariant
                        n == directory.len(),
                        copy@.len() == i,
                        forall|j: int| 0 <= j < i ==> #[trigger] copy@[j]@ == directory@[j]@,
                {
                    copy.push(directory[i].duplicate());
                }
                proof {
                    assert(copy.deep_view() =~= directory.deep_view());
                }
                VerificationStep::SecretMatch { directory: copy }
            },
            VerificationStep::OneTimeCode { expected } => VerificationStep::OneTimeCode {
                expected: *expected,
            },
        }
    }
}

/// A zero-argument producer of fresh [`VerificationStep`] instances. Every
/// session a workflow drives calls [`Supplier::get`] when a step becomes
/// active, so no step instance is ever shared between sessions or reused
/// across steps.
#[derive(Debug)]
pub struct Supplier {
    prototype: VerificationStep,
}

impl View for Supplier {
    type V = SpecStep;

    closed spec fn view(&self) -> SpecStep {
        self.prototype@
    }
}

impl Supplier {
    /// A supplier that produces fresh instances of the given step.
    pub fn new(prototype: VerificationStep) -> (r: Supplier)
        ensures
            r@ == prototype@,
    {
        Supplier { prototype }
    }

    /// A fresh instance of the supplied step.
    pub fn get(&self) -> (r: VerificationStep)
        ensures
            r@ == self@,
    {
        self.prototype.duplicate()
    }
}

} // verus!
