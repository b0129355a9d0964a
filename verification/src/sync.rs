//! Per-frame CPU/GPU synchronization protocol.
//!
//! The render loop owns a fixed number of frame slots, each with an
//! image-available semaphore, a render-finished semaphore and an in-flight
//! fence. A tick of the loop waits on the current slot's fence, acquires an
//! image, resets and re-arms the fence with the submission, presents, and
//! advances to the next slot. [`FrameSync`] tracks the fence protocol and
//! plans each tick; the shell executes the plan's steps in field order
//! against the graphics API.
//!
//! Fences are created signaled, so the very first wait on a slot returns at
//! once instead of deadlocking. The protocol's safety property: the CPU
//! never waits on a fence that is unsignaled without a submission armed to
//! signal it — such a wait would block forever.

use vstd::prelude::*;

verus! {

/// How many frames' worth of GPU work may be outstanding at once.
pub const MAX_FRAMES_IN_FLIGHT: usize = 2;

/// The protocol state of one slot's in-flight fence.
#[derive(Clone, Copy, PartialEq, Eq, Structural, Debug)]
pub enum FenceStatus {
    /// The fence is signaled: at creation, or because the armed submission's
    /// GPU work completed (observed by a fence wait).
    Signaled,
    /// The fence was reset and no submission has armed it since: a CPU wait
    /// now would never return.
    Unsignaled,
    /// A submission is armed to signal the fence when its GPU work finishes:
    /// a CPU wait returns once the GPU catches up.
    Armed,
}

/// The mathematical state of the synchronizer: one fence status per frame
/// slot, and the slot the next tick uses.
pub struct SyncModel {
    pub fences: Seq<FenceStatus>,
    pub current: int,
}

/// Well-formedness plus the protocol's safety invariant: exactly
/// `MAX_FRAMES_IN_FLIGHT` slots, a current slot in range, and no fence left
/// unsignaled without an armed submission.
pub open spec fn model_inv(m: SyncModel) -> bool {
    &&& m.fences.len() == MAX_FRAMES_IN_FLIGHT
    &&& 0 <= m.current < MAX_FRAMES_IN_FLIGHT
    &&& forall|i: int| 0 <= i < m.fences.len() ==> !((#[trigger] m.fences[i]) is Unsignaled)
}

/// The state after creation: every fence signaled, and the loop starting on
/// slot 1.
pub open spec fn model_init() -> SyncModel {
    SyncModel {
        fences: Seq::new(MAX_FRAMES_IN_FLIGHT as nat, |i: int| FenceStatus::Signaled),
        current: 1,
    }
}

/// The state after one tick: the current slot's fence was waited on, reset,
/// and re-armed by the submission, and the loop advanced to the next slot.
pub open spec fn model_tick(m: SyncModel) -> SyncModel {
    SyncModel {
        fences: m.fences.update(m.current, FenceStatus::Armed),
        current: (m.current + 1) % (MAX_FRAMES_IN_FLIGHT as int),
    }
}

/// The CPU may wait on the current slot's fence: it is signaled or armed.
pub open spec fn wait_is_safe(m: SyncModel) -> bool {
    m.fences[m.current] is Signaled || m.fences[m.current] is Armed
}

/// The state after `n` ticks from creation.
pub open spec fn model_run(n: nat) -> SyncModel
    decreases n,
{
    if n == 0 {
        model_init()
    } else {
        model_tick(model_run((n - 1) as nat))
    }
}

/// The tick preserves the protocol invariant.
pub proof fn lemma_tick_preserves_inv(m: SyncModel)
    requires
        model_inv(m),
    ensures
        model_inv(model_tick(m)),
{
}

/// A fence is never waited on unarmed: along every run of the render loop,
/// however long, the fence the next tick waits on is signaled (created so,
/// or observed complete) or armed by a previous submission to that slot.
pub proof fn lemma_run_never_waits_unarmed(n: nat)
    ensures
        model_inv(model_run(n)),
        wait_is_safe(model_run(n)),
    decreases n,
{
    if n > 0 {
        lemma_run_never_waits_unarmed((n - 1) as nat);
    }
}

/// The pipeline stage a submission waits at for the image to become
/// available.
#[derive(Clone, Copy, PartialEq, Eq, Structural, Debug)]
pub enum PipelineStage {
    TopOfPipe,
    ColorAttachmentOutput,
}

/// One tick's worth of work for the shell, executed in field order against
/// the slot's synchronization objects and the acquired image.
#[derive(Clone, Copy, PartialEq, Eq, Structural, Debug)]
pub struct FramePlan {
    /// Wait on this slot's in-flight fence first.
    pub wait_fence_slot: usize,
    /// Acquire the next image, signaling this slot's image-available
    /// semaphore.
    pub acquire_signal_slot: usize,
    /// Then reset this slot's fence to unsignaled.
    pub reset_fence_slot: usize,
    /// Submit the pre-recorded command buffer of the acquired image ...
    pub command_buffer_index: usize,
    /// ... waiting on this slot's image-available semaphore ...
    pub submit_wait_slot: usize,
    /// ... at this pipeline stage ...
    pub submit_wait_stage: PipelineStage,
    /// ... signaling this slot's render-finished semaphore ...
    pub submit_signal_slot: usize,
    /// ... and arming this slot's fence to signal on completion.
    pub submit_fence_slot: usize,
    /// Present this image ...
    pub present_image_index: usize,
    /// ... waiting on this slot's render-finished semaphore.
    pub present_wait_slot: usize,
}

/// The executable synchronizer: the fence protocol state of every slot and
/// the slot the next tick uses.
pub struct FrameSync {
    pub fences: Vec<FenceStatus>,
    pub current_frame: usize,
}

impl FrameSync {
    /// The mathematical state this synchronizer is in.
    pub open spec fn model(&self) -> SyncModel {
        SyncModel { fences: self.fences@, current: self.current_frame as int }
    }

    /// Creates the synchronizer as the sync objects are created: exactly
    /// `MAX_FRAMES_IN_FLIGHT` slots, every fence created signaled.
    pub fn new() -> (sync: FrameSync)
        ensures
            sync.model() == model_init(),
            model_inv(sync.model()),
    {
        let mut fences: Vec<FenceStatus> = Vec::new();
        let mut i: usize = 0;
        while i < MAX_FRAMES_IN_FLIGHT
            invariant
                i <= MAX_FRAMES_IN_FLIGHT,
                fences@.len() == i,
                forall|k: int| 0 <= k < i ==> fences@[k] == FenceStatus::Signaled,
            decreases MAX_FRAMES_IN_FLIGHT - i,
        {
            fences.push(FenceStatus::Signaled);
            i = i + 1;
        }
        let sync = FrameSync { fences, current_frame: 1 };
        assert(sync.model().fences =~= model_init().fences);
        sync
    }

    /// The slot the next tick uses.
    pub fn current_slot(&self) -> (slot: usize)
        ensures
            slot == self.model().current,
    {
        self.current_frame
    }

    /// Plans one tick of the render loop for the image the acquire step
    /// returned, and advances the protocol. Every step of the plan targets
    /// the current slot, and the fence waited on is signaled or armed —
    /// never a reset fence with no submission behind it.
    pub fn plan_frame(&mut self, image_index: usize, image_count: usize) -> (plan: FramePlan)
        requires
            model_inv(old(self).model()),
            image_index < image_count,
        ensures
            model_inv(final(self).model()),
            final(self).model() == model_tick(old(self).model()),
            plan.wait_fence_slot == old(self).model().current,
            plan.acquire_signal_slot == plan.wait_fence_slot,
            plan.reset_fence_slot == plan.wait_fence_slot,
            plan.submit_wait_slot == plan.wait_fence_slot,
            plan.submit_wait_stage is ColorAttachmentOutput,
            plan.submit_signal_slot == plan.wait_fence_slot,
            plan.submit_fence_slot == plan.wait_fence_slot,
            plan.present_wait_slot == plan.wait_fence_slot,
            plan.command_buffer_index == image_index,
            plan.present_image_index == image_index,
            plan.command_buffer_index < image_count,
            !(old(self).model().fences[plan.wait_fence_slot as int] is Unsignaled),
            final(self).model().fences[plan.wait_fence_slot as int] is Armed,
    {
        let slot = self.current_frame;
        self.fences.set(slot, FenceStatus::Armed);
        self.current_frame = (self.current_frame + 1) % MAX_FRAMES_IN_FLIGHT;
        FramePlan {
            wait_fence_slot: slot,
            acquire_signal_slot: slot,
            reset_fence_slot: slot,
            command_buffer_index: image_index,
            submit_wait_slot: slot,
            submit_wait_stage: PipelineStage::ColorAttachmentOutput,
            submit_signal_slot: slot,
            submit_fence_slot: slot,
            present_image_index: image_index,
            present_wait_slot: slot,
        }
    }
}

} // verus!
