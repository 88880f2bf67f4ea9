//! The workflow definition: an immutable, ordered list of verification steps,
//! each with its level of assurance, built once and then shared read-only by
//! every session.

use vstd::prelude::*;

use crate::steps::SpecStep;
use crate::steps::Supplier;

verus! {

/// One entry of a workflow: the level of assurance its step confers once
/// passed, and the factory that produces a fresh instance of that step for
/// each session that reaches it.
#[derive(Debug)]
pub struct Module {
    pub level_of_assurance: u32,
    pub credential_validator: Supplier,
}

/// The mathematical value of a [`Module`]: its level of assurance and the
/// step its factory produces.
pub struct SpecModule {
    pub level_of_assurance: u32,
    pub step: SpecStep,
}

impl View for Module {
    type V = SpecModule;

    open spec fn view(&self) -> SpecModule {
        SpecModule {
            level_of_assurance: self.level_of_assurance,
            step: self.credential_validator@,
        }
    }
}

/// An ordered sequence of verification steps; insertion order is evaluation
/// order. Mutation is construction-only: once a workflow is handed to a
/// session it is only ever read.
#[derive(Debug)]
pub struct Workflow {
    pub(crate) modules: Vec<Module>,
}

impl View for Workflow {
    type V = Seq<SpecModule>;

    closed spec fn view(&self) -> Seq<SpecModule> {
        self.modules@.map(|i: int, m: Module| m@)
    }
}

impl Workflow {
    /// An empty workflow.
    pub fn new() -> (r: Workflow)
        ensures
            r@ == Seq::<SpecModule>::empty(),
    {
        let w = Workflow { modules: Vec::new() };
        proof {
            assert(w@ =~= Seq::<SpecModule>::empty());
        }
        w
    }

    /// Append one step, with its level of assurance, to the end of the
    /// workflow. Evaluation order is the order of these calls.
    pub fn add_credential_validator(
        &mut self,
        level_of_assurance: u32,
        credential_validator: Supplier,
    )
        ensures
            final(self)@ == old(self)@.push(
                SpecModule { level_of_assurance, step: credential_validator@ },
            ),
    {
        let ghost before = self@;
        self.modules.push(Module { level_of_assurance, credential_validator });
        proof {
            assert(self@ =~= before.push(
                SpecModule { level_of_assurance, step: credential_validator@ },
            ));
        }
    }

    /// The entry at position `i` of the evaluation order.
    pub(crate) fn module_at(&self, i: usize) -> (m: &Module)
        requires
            i < self@.len(),
        ensures
            m@ == self@[i as int],
    {
        &self.modules[i]
    }

    /// The number of steps in the workflow.
    pub fn step_count(&self) -> (r: usize)
        ensures
            r == self@.len(),
    {
        self.modules.len()
    }

    /// The levels of assurance of all steps, in evaluation order: a
    /// restartable, read-only enumeration that neither consumes the workflow
    /// nor touches any session's progress.
    pub fn list_steps(&self) -> (r: Vec<u32>)
        ensures
            r@.len() == self@.len(),
            forall|i: int| 0 <= i < self@.len() ==> r@[i] == self@[i].level_of_assurance,
    {
        let mut levels: Vec<u32> = Vec::new();
        let n = self.modules.len();
        for i in 0..n
            invariant
                n == self.modules.len(),
                levels@.len() == i,
                forall|j: int| 0 <= j < i ==> levels@[j] == self@[j].level_of_assurance,
        {
            levels.push(self.modules[i].level_of_assurance);
        }
        levels
    }
}

} // verus!
