use crate::registry::Armed;
use vstd::prelude::*;

verus! {

/// One step of a board's start-up.
#[derive(Clone, Copy, Debug, PartialEq, Eq, Structural)]
pub enum Step {
    /// Take the peripheral register block; possible once per boot.
    ClaimPeripherals,
    /// Bring up the oscillator and the PLLs.
    ConfigureClocks,
    /// Give each pin its function.
    AssignPins,
    /// Build buses, timers and drivers, buses before what uses them.
    BuildPeripherals,
    /// Build the USB stack and store it in its registry slot.
    InstallUsb,
    /// Let the USB interrupt fire.
    UnmaskUsbInterrupt,
    /// Bundle everything into the board handle.
    AssembleHandle,
}

/// The steps of a start-up, in order. A board without USB skips the two
/// USB steps.
pub open spec fn plan(has_usb: bool) -> Seq<Step> {
    if has_usb {
        seq![
            Step::ClaimPeripherals,
            Step::ConfigureClocks,
            Step::AssignPins,
            Step::BuildPeripherals,
            Step::InstallUsb,
            Step::UnmaskUsbInterrupt,
            Step::AssembleHandle,
        ]
    } else {
        seq![
            Step::ClaimPeripherals,
            Step::ConfigureClocks,
            Step::AssignPins,
            Step::BuildPeripherals,
            Step::AssembleHandle,
        ]
    }
}

/// The start-up of one board: which steps are done, and whether a step
/// failed. A failure halts it for good; there is no degraded board.
pub struct BootSequence {
    has_usb: bool,
    done: usize,
    halted: bool,
}

impl BootSequence {
    pub closed spec fn wf(&self) -> bool {
        self.done <= plan(self.has_usb).len()
    }

    /// Whether this board has a USB controller.
    pub closed spec fn usb(&self) -> bool {
        self.has_usb
    }

    /// Whether a step failed.
    pub closed spec fn halted(&self) -> bool {
        self.halted
    }

    /// The steps done so far, in the order they were done.
    pub closed spec fn completed(&self) -> Seq<Step> {
        plan(self.has_usb).take(self.done as int)
    }

    /// The step to perform next, if the start-up is neither finished nor
    /// halted.
    pub open spec fn pending(&self) -> Option<Step> {
        if self.halted() || self.completed().len() >= plan(self.usb()).len() {
            None
        } else {
            Some(plan(self.usb())[self.completed().len() as int])
        }
    }

    /// Whether every step is done.
    pub open spec fn ready(&self) -> bool {
        !self.halted() && self.completed().len() == plan(self.usb()).len()
    }

    /// A start-up with nothing done yet.
    pub fn new(has_usb: bool) -> (r: Self)
        ensures
            r.wf(),
            r.usb() == has_usb,
            !r.halted(),
            r.completed() == Seq::<Step>::empty(),
    {
        BootSequence { has_usb, done: 0, halted: false }
    }

    /// The step to perform next.
    pub fn next_step(&self) -> (r: Option<Step>)
        requires
            self.wf(),
        ensures
            r == self.pending(),
    {
        let n: usize = if self.has_usb { 7 } else { 5 };
        if self.halted || self.done >= n {
            return None;
        }
        let i = self.done;
        let s = if self.has_usb {
            if i == 0 {
                Step::ClaimPeripherals
            } else if i == 1 {
                Step::ConfigureClocks
            } else if i == 2 {
                Step::AssignPins
            } else if i == 3 {
                Step::BuildPeripherals
            } else if i == 4 {
                Step::InstallUsb
            } else if i == 5 {
                Step::UnmaskUsbInterrupt
            } else {
                Step::AssembleHandle
            }
        } else {
            if i == 0 {
                Step::ClaimPeripherals
            } else if i == 1 {
                Step::ConfigureClocks
            } else if i == 2 {
                Step::AssignPins
            } else if i == 3 {
                Step::BuildPeripherals
            } else {
                Step::AssembleHandle
            }
        };
        Some(s)
    }

    /// Records that the pending step succeeded. Installing the USB stack is
    /// recorded by `usb_installed` instead, which asks for the slot's proof.
    pub fn step_done(&mut self, step: Step)
        requires
            old(self).wf(),
            old(self).pending() == Some(step),
            step != Step::InstallUsb,
        ensures
            final(self).wf(),
            final(self).usb() == old(self).usb(),
            !final(self).halted(),
            final(self).completed() == old(self).completed().push(step),
    {
        self.done = self.done + 1;
        assert(self.completed() =~= old(self).completed().push(step));
    }

    /// Records that the USB stack sits in its registry slot: `armed` is what
    /// filling the slot gave back.
    pub fn usb_installed(&mut self, armed: &Armed)
        requires
            old(self).wf(),
            old(self).pending() == Some(Step::InstallUsb),
        ensures
            final(self).wf(),
            final(self).usb() == old(self).usb(),
            !final(self).halted(),
            final(self).completed() == old(self).completed().push(Step::InstallUsb),
    {
        self.done = self.done + 1;
        assert(self.completed() =~= old(self).completed().push(Step::InstallUsb));
    }

    /// Records that the pending step failed: the start-up halts.
    pub fn step_failed(&mut self)
        requires
            old(self).wf(),
        ensures
            final(self).wf(),
            final(self).usb() == old(self).usb(),
            final(self).halted(),
            final(self).completed() == old(self).completed(),
            final(self).pending() is None,
    {
        self.halted = true;
    }

    /// Whether every step is done and a board handle may be handed out.
    pub fn is_ready(&self) -> (r: bool)
        requires
            self.wf(),
        ensures
            r == self.ready(),
    {
        !self.halted && self.done == (if self.has_usb { 7 } else { 5 })
    }

    /// Whether a step failed.
    pub fn is_halted(&self) -> (r: bool)
        ensures
            r == self.halted(),
    {
        self.halted
    }
}

/// The one door to a start-up: it opens once per run. The board's
/// constructor goes through it, so a second construction is refused rather
/// than re-claiming the register block.
pub struct BootLatch {
    opened: bool,
}

/// What one call of `BootLatch::open` may do, from the latch before the call
/// to the latch after it and the result.
pub open spec fn open_step(pre: BootLatch, post: BootLatch, has_usb: bool, r: Option<BootSequence>) -> bool {
    &&& post.used()
    &&& (pre.used() ==> r is None)
    &&& (!pre.used() ==> (r matches Some(s) && s.wf() && s.usb() == has_usb && !s.halted()
        && s.completed() == Seq::<Step>::empty()))
}

impl BootLatch {
    /// Whether a start-up has been handed out.
    pub closed spec fn used(&self) -> bool {
        self.opened
    }

    /// A latch that has not been opened.
    pub fn new() -> (r: Self)
        ensures
            !r.used(),
    {
        BootLatch { opened: false }
    }

    /// Hands out the run's start-up the first time, and `None` every time
    /// after.
    pub fn open(&mut self, has_usb: bool) -> (r: Option<BootSequence>)
        ensures
            open_step(*old(self), *final(self), has_usb, r),
    {
        if self.opened {
            None
        } else {
            self.opened = true;
            Some(BootSequence::new(has_usb))
        }
    }
}

/// However a run goes, at most one start-up comes out of the latch: after a
/// first opening, whatever it gave, every later opening gives nothing.
pub proof fn lemma_second_boot_refused(
    latches: Seq<BootLatch>,
    usb: Seq<bool>,
    results: Seq<Option<BootSequence>>,
)
    requires
        latches.len() == results.len() + 1,
        usb.len() == results.len(),
        forall|i: int| 0 <= i < results.len() ==> open_step(#[trigger] latches[i], latches[i + 1], usb[i], results[i]),
    ensures
        forall|i: int| 1 <= i < results.len() ==> (#[trigger] results[i]) is None,
        forall|i: int, j: int| 0 <= i < results.len() && 0 <= j < results.len()
            && (#[trigger] results[i]) is Some && (#[trigger] results[j]) is Some ==> i == j,
{
    assert forall|i: int| 1 <= i < results.len() implies (#[trigger] results[i]) is None by {
        assert(open_step(latches[i - 1], latches[i], usb[i - 1], results[i - 1]));
        assert(open_step(latches[i], latches[i + 1], usb[i], results[i]));
    }
}

/// The USB interrupt is unmasked only right after the USB stack was stored
/// in its slot: in every start-up, each unmask step directly follows the
/// install step, and while the unmask is pending the install is the last
/// step done.
pub proof fn lemma_install_precedes_unmask(s: BootSequence)
    requires
        s.wf(),
    ensures
        forall|i: int|
            0 <= i < s.completed().len() && #[trigger] s.completed()[i] == Step::UnmaskUsbInterrupt
                ==> i > 0 && s.completed()[i - 1] == Step::InstallUsb,
        s.pending() == Some(Step::UnmaskUsbInterrupt) ==> s.completed().len() > 0
            && s.completed().last() == Step::InstallUsb,
{
}

/// The register block is claimed at most once per start-up, and first: no
/// start-up claims it twice, and once it is claimed the claim is never
/// pending again.
pub proof fn lemma_single_claim(s: BootSequence)
    requires
        s.wf(),
    ensures
        forall|i: int, j: int|
            0 <= i < s.completed().len() && 0 <= j < s.completed().len()
                && #[trigger] s.completed()[i] == Step::ClaimPeripherals
                && #[trigger] s.completed()[j] == Step::ClaimPeripherals ==> i == j,
        s.completed().len() > 0 ==> s.completed()[0] == Step::ClaimPeripherals
            && s.pending() != Some(Step::ClaimPeripherals),
{
}

/// A halted start-up goes no further and never yields a board.
pub proof fn lemma_halted_never_ready(s: BootSequence)
    requires
        s.wf(),
        s.halted(),
    ensures
        s.pending() is None,
        !s.ready(),
{
}

} // verus!
