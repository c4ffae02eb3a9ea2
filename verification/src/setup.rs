//! The order in which interrupt handling is switched on: the vector table
//! is loaded first, the interrupt controllers are remapped next, and only
//! then are interrupts enabled.

use crate::interrupt::{init_idt, installed_handler, InterruptVectorTable, VECTOR_COUNT};
use crate::pic::{PicPair, PIC_1_OFFSET};
use vstd::prelude::*;

verus! {

/// How far interrupt handling has been switched on.
#[derive(Clone, Copy, Debug, PartialEq, Eq)]
pub enum SetupStage {
    /// Nothing is done yet; interrupts are off.
    Start,
    /// The vector table is loaded into the CPU.
    TableLoaded,
    /// The interrupt controllers are remapped and unmasked.
    PicsRemapped,
    /// Interrupts are on.
    InterruptsEnabled,
}

/// The steps that switch interrupt handling on.
#[derive(Clone, Copy, Debug, PartialEq, Eq)]
pub enum SetupStep {
    /// Load the vector table into the CPU.
    LoadTable,
    /// Remap and unmask the two interrupt controllers.
    RemapPics,
    /// Enable interrupts.
    EnableInterrupts,
}

/// A step was asked for at a stage that does not allow it.
#[derive(Clone, Copy, Debug, PartialEq, Eq)]
pub struct OutOfOrder {
    /// The stage at which the step was asked for.
    pub stage: SetupStage,
    /// The step that was refused.
    pub step: SetupStep,
}

impl SetupStage {
    /// The one step that may be taken at this stage.
    pub open spec fn spec_next_step(self) -> Option<SetupStep> {
        match self {
            SetupStage::Start => Some(SetupStep::LoadTable),
            SetupStage::TableLoaded => Some(SetupStep::RemapPics),
            SetupStage::PicsRemapped => Some(SetupStep::EnableInterrupts),
            SetupStage::InterruptsEnabled => None,
        }
    }

    /// The stage that a step leads to.
    pub open spec fn after(step: SetupStep) -> SetupStage {
        match step {
            SetupStep::LoadTable => SetupStage::TableLoaded,
            SetupStep::RemapPics => SetupStage::PicsRemapped,
            SetupStep::EnableInterrupts => SetupStage::InterruptsEnabled,
        }
    }

    /// The stage reached by taking `step` at this stage, or the refusal.
    pub open spec fn spec_advance(self, step: SetupStep) -> Result<SetupStage, OutOfOrder> {
        if self.spec_next_step() == Some(step) {
            Ok(SetupStage::after(step))
        } else {
            Err(OutOfOrder { stage: self, step })
        }
    }

    /// The one step that may be taken at this stage; none once interrupts
    /// are on.
    #[verifier::when_used_as_spec(spec_next_step)]
    pub fn next_step(self) -> (step: Option<SetupStep>)
        ensures
            step == self.spec_next_step(),
    {
        match self {
            SetupStage::Start => Some(SetupStep::LoadTable),
            SetupStage::TableLoaded => Some(SetupStep::RemapPics),
            SetupStage::PicsRemapped => Some(SetupStep::EnableInterrupts),
            SetupStage::InterruptsEnabled => None,
        }
    }

    /// Takes a step.  Only the step that this stage allows is accepted:
    /// the table is loaded first, the controllers are remapped next, and
    /// interrupts are enabled last.
    #[verifier::when_used_as_spec(spec_advance)]
    pub fn advance(self, step: SetupStep) -> (r: Result<SetupStage, OutOfOrder>)
        ensures
            r == self.spec_advance(step),
    {
        match (self, step) {
            (SetupStage::Start, SetupStep::LoadTable) => Ok(SetupStage::TableLoaded),
            (SetupStage::TableLoaded, SetupStep::RemapPics) => Ok(SetupStage::PicsRemapped),
            (SetupStage::PicsRemapped, SetupStep::EnableInterrupts) => Ok(
                SetupStage::InterruptsEnabled,
            ),
            _ => Err(OutOfOrder { stage: self, step }),
        }
    }

    /// The stage reached from this one by taking `steps` in turn, if every
    /// one of them is accepted.
    pub open spec fn run(self, steps: Seq<SetupStep>) -> Option<SetupStage>
        decreases steps.len(),
    {
        if steps.len() == 0 {
            Some(self)
        } else {
            match self.run(steps.drop_last()) {
                Some(stage) => match stage.spec_advance(steps.last()) {
                    Ok(next) => Some(next),
                    Err(_) => None,
                },
                None => None,
            }
        }
    }
}

/// Enabling interrupts is refused until the vector table is loaded and the
/// controllers are remapped.
pub proof fn lemma_enable_refused_early(stage: SetupStage)
    ensures
        stage.spec_advance(SetupStep::EnableInterrupts) is Ok <==> stage is PicsRemapped,
        stage.spec_advance(SetupStep::RemapPics) is Ok <==> stage is TableLoaded,
        stage.spec_advance(SetupStep::LoadTable) is Ok <==> stage is Start,
{
}

/// Whatever steps are tried from the start, the accepted ones are a prefix
/// of the one order: load the table, remap the controllers, enable
/// interrupts.  Interrupts are on only after all three.
pub proof fn lemma_setup_order(steps: Seq<SetupStep>)
    requires
        SetupStage::Start.run(steps) is Some,
    ensures
        steps.len() <= 3,
        steps.len() >= 1 ==> steps[0] == SetupStep::LoadTable,
        steps.len() >= 2 ==> steps[1] == SetupStep::RemapPics,
        steps.len() >= 3 ==> steps[2] == SetupStep::EnableInterrupts,
        SetupStage::Start.run(steps) == Some(SetupStage::InterruptsEnabled) <==> steps.len() == 3,
        steps.len() == 0 ==> SetupStage::Start.run(steps) == Some(SetupStage::Start),
        steps.len() == 1 ==> SetupStage::Start.run(steps) == Some(SetupStage::TableLoaded),
        steps.len() == 2 ==> SetupStage::Start.run(steps) == Some(SetupStage::PicsRemapped),
    decreases steps.len(),
{
    if steps.len() > 0 {
        let front = steps.drop_last();
        lemma_setup_order(front);
        assert(forall|i: int| 0 <= i < front.len() ==> front[i] == steps[i]);
    }
}

/// The state of interrupt handling: the vector table, the offsets of the
/// interrupt controllers, and how far the setup has come.  The table and
/// the offsets are fixed when the value is made and never change.
pub struct InterruptSetup {
    stage: SetupStage,
    idt: InterruptVectorTable,
    pics: PicPair,
}

impl InterruptSetup {
    /// How far the setup has come.
    pub closed spec fn spec_stage(&self) -> SetupStage {
        self.stage
    }

    /// The vector table.
    pub closed spec fn spec_idt(&self) -> InterruptVectorTable {
        self.idt
    }

    /// The offsets of the interrupt controllers.
    pub closed spec fn spec_pics(&self) -> PicPair {
        self.pics
    }

    /// The setup holds the table and the offsets of this kernel.
    pub open spec fn wf(&self) -> bool {
        &&& self.spec_idt().wf()
        &&& forall|v: int|
            0 <= v < VECTOR_COUNT ==> #[trigger] self.spec_idt()@[v] == installed_handler(v)
        &&& self.spec_pics().wf()
        &&& self.spec_pics().primary_offset == PIC_1_OFFSET
    }

    /// The setup before any step is taken, with the vector table built.
    pub fn new() -> (setup: InterruptSetup)
        ensures
            setup.wf(),
            setup.spec_stage() is Start,
    {
        InterruptSetup { stage: SetupStage::Start, idt: init_idt(), pics: PicPair::remapped() }
    }

    /// How far the setup has come.
    #[verifier::when_used_as_spec(spec_stage)]
    pub fn stage(&self) -> (stage: SetupStage)
        ensures
            stage == self.spec_stage(),
    {
        self.stage
    }

    /// The vector table to load.
    pub fn idt(&self) -> (idt: &InterruptVectorTable)
        ensures
            *idt == self.spec_idt(),
    {
        &self.idt
    }

    /// The offsets to program into the interrupt controllers.
    #[verifier::when_used_as_spec(spec_pics)]
    pub fn pics(&self) -> (pics: PicPair)
        ensures
            pics == self.spec_pics(),
    {
        self.pics
    }

    /// Whether interrupts are on.
    pub fn interrupts_enabled(&self) -> (b: bool)
        ensures
            b <==> self.spec_stage() is InterruptsEnabled,
    {
        match self.stage {
            SetupStage::InterruptsEnabled => true,
            _ => false,
        }
    }

    /// Asks to take a step; the caller performs it only when it is
    /// accepted.  A step out of order is refused and changes nothing; the
    /// table and the offsets never change.
    pub fn advance(&mut self, step: SetupStep) -> (r: Result<(), OutOfOrder>)
        ensures
            final(self).spec_idt() == old(self).spec_idt(),
            final(self).spec_pics() == old(self).spec_pics(),
            match old(self).spec_stage().spec_advance(step) {
                Ok(next) => r is Ok && final(self).spec_stage() == next,
                Err(refusal) => r == Err::<(), OutOfOrder>(refusal) && final(self).spec_stage()
                    == old(self).spec_stage(),
            },
    {
        match self.stage.advance(step) {
            Ok(next) => {
                self.stage = next;
                Ok(())
            },
            Err(refusal) => Err(refusal),
        }
    }
}

} // verus!
