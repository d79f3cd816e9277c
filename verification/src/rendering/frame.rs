//! The per-tick frame state machine: which sync-object slot a tick
//! uses, what the tick does for each acquire outcome, and how the
//! double-buffer index advances.

use vstd::prelude::*;
use crate::rendering::MAX_FRAMES_IN_FLIGHT;

verus! {

/// What acquiring the next presentable image came back with.
#[derive(Clone, Copy, PartialEq, Eq, Structural, Debug)]
pub enum AcquireResult {
    /// The index of the acquired image.
    Acquired(u32),
    /// The surface no longer matches the chain; rebuild and retry.
    OutOfDate,
    /// Any other driver error, with its raw result code.
    DriverError(i32),
}

/// What a tick does once the acquire outcome is known.
#[derive(Clone, Copy, PartialEq, Eq, Structural, Debug)]
pub enum FrameAction {
    /// Submit and present the acquired image using the slot's sync
    /// objects, then advance the slot.
    Render { slot: usize, image_index: u32 },
    /// Wait the present queue idle, tear the chain down and rebuild
    /// it; the slot does not advance and the tick is retried.
    RebuildSwapchain,
    /// Terminate: no per-frame error other than out-of-date is
    /// recoverable.
    Fatal,
}

/// One host-side step of a tick, in the order the host executes them.
#[derive(Clone, Copy, PartialEq, Eq, Structural, Debug)]
pub enum FrameStep {
    /// Block until the slot's fence signals.
    WaitFence { slot: usize },
    /// Request the next image with the slot's image-available
    /// semaphore.
    AcquireImage { slot: usize },
    /// Reset the slot's fence, only after the wait confirmed
    /// completion.
    ResetFence { slot: usize },
    /// Submit the image's pre-recorded commands: wait on the slot's
    /// image-available semaphore, signal its render-finished semaphore
    /// and its fence.
    Submit { slot: usize, image_index: u32 },
    /// Present the image, waiting on the slot's render-finished
    /// semaphore.
    Present { slot: usize, image_index: u32 },
    /// Move on to the next slot.
    Advance,
}

/// The slot after one more submitted frame.
pub open spec fn spec_next_slot(slot: nat) -> nat {
    (slot + 1) % (MAX_FRAMES_IN_FLIGHT as nat)
}

/// The slot in use after the given number of submitted frames.
pub open spec fn spec_slot_after(frames: nat) -> nat
    decreases frames,
{
    if frames == 0 {
        0
    } else {
        spec_next_slot(spec_slot_after((frames - 1) as nat))
    }
}

/// After any number of submitted frames the slot is the frame count
/// modulo the slot count, so the sequence cycles 0, 1, 0, 1, … and at
/// most `MAX_FRAMES_IN_FLIGHT` distinct sync-object sets are ever
/// referenced.
pub proof fn lemma_slot_cycling(frames: nat)
    ensures
        spec_slot_after(frames) == frames % (MAX_FRAMES_IN_FLIGHT as nat),
        spec_slot_after(frames) < MAX_FRAMES_IN_FLIGHT,
    decreases frames,
{
    if frames > 0 {
        lemma_slot_cycling((frames - 1) as nat);
    }
}

/// The steps a tick performs for each acquire outcome: a full
/// wait-acquire-reset-submit-present-advance pass on success, a
/// rebuild without advancing when the surface is out of date, and an
/// immediate stop on any other driver error.
pub open spec fn spec_tick_steps(slot: nat, acquire: AcquireResult) -> Seq<FrameStep> {
    match acquire {
        AcquireResult::Acquired(image_index) => seq![
            FrameStep::WaitFence { slot: slot as usize },
            FrameStep::AcquireImage { slot: slot as usize },
            FrameStep::ResetFence { slot: slot as usize },
            FrameStep::Submit { slot: slot as usize, image_index },
            FrameStep::Present { slot: slot as usize, image_index },
            FrameStep::Advance,
        ],
        AcquireResult::OutOfDate => seq![
            FrameStep::WaitFence { slot: slot as usize },
            FrameStep::AcquireImage { slot: slot as usize },
        ],
        AcquireResult::DriverError(_) => seq![
            FrameStep::WaitFence { slot: slot as usize },
            FrameStep::AcquireImage { slot: slot as usize },
        ],
    }
}

/// Drives one tick per host iteration; holds only the double-buffer
/// index.
pub struct FrameScheduler {
    pub current_frame: usize,
}

impl FrameScheduler {
    /// The slot index always stays below the slot count.
    pub open spec fn wf(&self) -> bool {
        self.current_frame < MAX_FRAMES_IN_FLIGHT
    }

    /// Starts at the first slot.
    pub fn new() -> (scheduler: Self)
        ensures
            scheduler.wf(),
            scheduler.current_frame == 0,
    {
        FrameScheduler { current_frame: 0 }
    }

    /// The sync-object slot this tick uses.
    pub fn slot(&self) -> (slot: usize)
        ensures
            slot == self.current_frame,
    {
        self.current_frame
    }

    /// Decides the tick from the acquire outcome and advances the slot
    /// exactly when an image was acquired; an out-of-date surface
    /// leaves the slot unchanged so the same slot retries after the
    /// rebuild, and any other driver error is fatal.
    pub fn tick(&mut self, acquire: AcquireResult) -> (action: FrameAction)
        requires
            old(self).wf(),
        ensures
            final(self).wf(),
            acquire matches AcquireResult::Acquired(image_index) ==> action
                == (FrameAction::Render { slot: old(self).current_frame, image_index })
                && final(self).current_frame == spec_next_slot(old(self).current_frame as nat),
            acquire is OutOfDate ==> action == FrameAction::RebuildSwapchain && *final(self)
                == *old(self),
            acquire is DriverError ==> action == FrameAction::Fatal && *final(self) == *old(self),
    {
        match acquire {
            AcquireResult::Acquired(image_index) => {
                let slot = self.current_frame;
                self.current_frame = (self.current_frame + 1) % MAX_FRAMES_IN_FLIGHT;
                FrameAction::Render { slot, image_index }
            },
            AcquireResult::OutOfDate => FrameAction::RebuildSwapchain,
            AcquireResult::DriverError(_) => FrameAction::Fatal,
        }
    }

    /// Lists the host-side steps of this tick for the given acquire
    /// outcome, in execution order.
    pub fn tick_steps(&self, acquire: AcquireResult) -> (steps: Vec<FrameStep>)
        requires
            self.wf(),
        ensures
            steps@ == spec_tick_steps(self.current_frame as nat, acquire),
    {
        let slot = self.current_frame;
        let mut steps: Vec<FrameStep> = Vec::new();
        steps.push(FrameStep::WaitFence { slot });
        steps.push(FrameStep::AcquireImage { slot });
        match acquire {
            AcquireResult::Acquired(image_index) => {
                steps.push(FrameStep::ResetFence { slot });
                steps.push(FrameStep::Submit { slot, image_index });
                steps.push(FrameStep::Present { slot, image_index });
                steps.push(FrameStep::Advance);
                assert(steps@ =~= spec_tick_steps(self.current_frame as nat, acquire));
            },
            AcquireResult::OutOfDate => {
                assert(steps@ =~= spec_tick_steps(self.current_frame as nat, acquire));
            },
            AcquireResult::DriverError(_) => {
                assert(steps@ =~= spec_tick_steps(self.current_frame as nat, acquire));
            },
        }
        steps
    }
}

} // verus!
