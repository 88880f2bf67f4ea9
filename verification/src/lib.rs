//! A step-wise authentication workflow engine.
//!
//! A caller builds an immutable [`Workflow`](workflow::Workflow): an ordered
//! list of verification steps, each with a level of assurance (LOA). For every
//! authentication attempt a [`Process`](session::Process) walks that workflow,
//! feeding each presented [`Proof`](claims::Proof) to the currently active
//! [`VerificationStep`](steps::VerificationStep); the cursor advances on a
//! verified outcome and holds its place on a rejection, so progress through
//! earlier steps is never lost.

pub mod claims;
pub mod laws;
pub mod session;
pub mod steps;
pub mod workflow;

pub use claims::Principal;
pub use claims::Proof;
pub use session::Process;
pub use session::SessionState;
pub use session::Status;
pub use steps::Credential;
pub use steps::StepOutcome;
pub use steps::Supplier;
pub use steps::VerificationStep;
pub use workflow::Workflow;
