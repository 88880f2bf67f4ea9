//! The claim data a caller presents for verification, and the identity a
//! session can establish from it.

use vstd::prelude::*;

verus! {

/// An established identity for a session.
#[derive(Debug, PartialEq, Eq)]
pub struct Principal(pub String);

impl View for Principal {
    type V = Seq<char>;

    open spec fn view(&self) -> Seq<char> {
        self.0@
    }
}

impl Principal {
    /// A fresh copy holding the same identity.
    pub fn duplicate(&self) -> (r: Principal)
        ensures
            r@ == self@,
    {
        Principal(self.0.clone())
    }
}

/// The mathematical value of an optional principal: the character sequence of
/// the identity, if one is established.
pub open spec fn principal_view(p: Option<Principal>) -> Option<Seq<char>> {
    match p {
        Some(principal) => Some(principal@),
        None => None,
    }
}

/// One claim a caller can present. The set of variants is closed: a
/// verification step pattern-matches on it and rejects every variant it does
/// not recognize.
#[derive(Debug)]
pub enum Proof {
    /// A claimed user name together with the secret that should prove it.
    UserSecret { user: String, secret: String },
    /// A numeric one-time code.
    OneTimeCode { code: u32 },
}

/// The mathematical value of a [`Proof`].
pub enum SpecProof {
    UserSecret { user: Seq<char>, secret: Seq<char> },
    OneTimeCode { code: u32 },
}

impl View for Proof {
    type V = SpecProof;

    open spec fn view(&self) -> SpecProof {
        match self {
            Proof::UserSecret { user, secret } => SpecProof::UserSecret {
                user: user@,
                secret: secret@,
            },
            Proof::OneTimeCode { code } => SpecProof::OneTimeCode { code: *code },
        }
    }
}

} // verus!
