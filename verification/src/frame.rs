//! The frame scheduler: a fixed ring of two synchronization slots bounding
//! how far the CPU may run ahead of the GPU, and the acquire/submit/present
//! decisions of one frame.

use vstd::prelude::*;
use crate::types::STAGE_COLOR_ATTACHMENT_OUTPUT;

verus! {

/// Depth of the synchronization ring: at most this many frames of GPU work
/// may be outstanding.  Independent of the swapchain image count.
pub const MAX_FRAMES_IN_FLIGHT: usize = 2;

/// The ring of synchronization slots; slot `i` names the `i`-th triple of
/// image-available semaphore, render-finished semaphore and in-flight
/// fence that the shell created.
#[derive(Clone, Copy, PartialEq, Eq, Structural, Debug)]
pub struct InFlightFrames {
    pub frame_count: usize,
    pub current_frame: usize,
}

impl InFlightFrames {
    pub open spec fn wf(self) -> bool {
        &&& self.frame_count == MAX_FRAMES_IN_FLIGHT
        &&& self.current_frame < self.frame_count
    }

    pub fn new() -> (r: InFlightFrames)
        ensures
            r.wf(),
            r.current_frame == 0,
    {
        InFlightFrames { frame_count: MAX_FRAMES_IN_FLIGHT, current_frame: 0 }
    }

    /// Hands out the current slot and advances the ring by one, modulo its
    /// length — on every call, whatever the frame's outcome.
    pub fn next(&mut self) -> (slot: usize)
        requires
            old(self).wf(),
        ensures
            final(self).wf(),
            slot == old(self).current_frame,
            final(self).current_frame == (old(self).current_frame + 1) % (
            final(self).frame_count as int),
            final(self).frame_count == old(self).frame_count,
    {
        let slot = self.current_frame;
        self.current_frame = (self.current_frame + 1) % self.frame_count;
        slot
    }
}

/// The ring alternates between its two slots: two successive frames never
/// share a slot, and the slot two frames later is the same again.
pub proof fn lemma_ring_alternates(r0: InFlightFrames, r1: InFlightFrames, r2: InFlightFrames)
    requires
        r0.wf(),
        r1.frame_count == r0.frame_count,
        r2.frame_count == r0.frame_count,
        r1.current_frame == (r0.current_frame + 1) % (r0.frame_count as int),
        r2.current_frame == (r1.current_frame + 1) % (r1.frame_count as int),
    ensures
        r1.current_frame != r0.current_frame,
        r2.current_frame == r0.current_frame,
{
    assert(r0.current_frame == 0 || r0.current_frame == 1);
    if r0.current_frame == 0 {
        assert(r1.current_frame == 1int % 2int == 1);
    } else {
        assert(r1.current_frame == 2int % 2int == 0);
    }
}

/// What the shell must create for one ring slot: an image-available
/// semaphore, a render-finished semaphore, and the slot's in-flight fence.
#[derive(Clone, Copy, PartialEq, Eq, Structural, Debug)]
pub struct SyncObjectsSpec {
    /// The fence starts signalled: the slot's first frame has no earlier
    /// work to wait on, so its fence wait must return at once.
    pub fence_starts_signaled: bool,
}

/// The synchronization objects of the ring, one triple per slot, every
/// fence born signalled.
pub fn create_sync_objects() -> (r: Vec<SyncObjectsSpec>)
    ensures
        r@.len() == MAX_FRAMES_IN_FLIGHT,
        forall|i: int| 0 <= i < r@.len() ==> (#[trigger] r@[i]).fence_starts_signaled,
{
    let mut v: Vec<SyncObjectsSpec> = Vec::new();
    let mut i: usize = 0;
    while i < MAX_FRAMES_IN_FLIGHT
        invariant
            0 <= i <= MAX_FRAMES_IN_FLIGHT,
            v@.len() == i,
            forall|j: int| 0 <= j < i ==> (#[trigger] v@[j]).fence_starts_signaled,
        decreases MAX_FRAMES_IN_FLIGHT - i,
    {
        v.push(SyncObjectsSpec { fence_starts_signaled: true });
        i = i + 1;
    }
    v
}

/// What acquiring the next presentable image reported.
#[derive(Clone, Copy, PartialEq, Eq, Structural, Debug)]
pub enum AcquireOutcome {
    /// An image was acquired; a suboptimal report is ignored here because
    /// the image is already owed a present.
    Acquired { image_index: u32, suboptimal: bool },
    /// The swapchain no longer matches the surface; the frame is abandoned
    /// before any work is submitted, and the slot's fence — still pending
    /// from its previous frame — is deliberately left unreset.
    OutOfDate,
}

/// What presenting the finished image reported.
#[derive(Clone, Copy, PartialEq, Eq, Structural, Debug)]
pub enum PresentOutcome {
    Presented { suboptimal: bool },
    OutOfDate,
}

/// The one submission of a frame and its synchronization wiring.  Command
/// buffer, uniform buffer and descriptor set are all the acquired image's
/// own — the 1:1 binding that makes the uniform write race-free — while
/// all three synchronization objects come from the ring slot.
#[derive(Clone, Copy, PartialEq, Eq, Structural, Debug)]
pub struct SubmissionSpec {
    pub slot: usize,
    pub image_index: usize,
    /// Reset the slot's fence only now, when work is certain to be
    /// submitted; an abandoned frame must leave it signalled.
    pub reset_fence_first: bool,
    pub command_buffer: usize,
    pub ubo_index: usize,
    pub wait_image_available_slot: usize,
    pub wait_stage: u32,
    pub signal_render_finished_slot: usize,
    pub fence_slot: usize,
}

pub open spec fn submission_spec(slot: usize, image_index: usize) -> SubmissionSpec {
    SubmissionSpec {
        slot,
        image_index,
        reset_fence_first: true,
        command_buffer: image_index,
        ubo_index: image_index,
        wait_image_available_slot: slot,
        wait_stage: STAGE_COLOR_ATTACHMENT_OUTPUT,
        signal_render_finished_slot: slot,
        fence_slot: slot,
    }
}

/// Whether the frame's outcomes leave the swapchain known stale, so the
/// next frame must recreate it: an out-of-date acquire or present, or a
/// suboptimal present.  `present` is what the present call reported, absent
/// exactly when the acquire abandoned the frame.
pub open spec fn frame_stale_spec(acquire: AcquireOutcome, present: Option<PresentOutcome>) -> bool {
    match acquire {
        AcquireOutcome::OutOfDate => true,
        AcquireOutcome::Acquired { .. } => match present {
            Some(PresentOutcome::Presented { suboptimal }) => suboptimal,
            Some(PresentOutcome::OutOfDate) => true,
            None => true,
        },
    }
}

} // verus!
