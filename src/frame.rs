//! The command/sync ring and the swapchain chain it renders into.
//!
//! `FrameLoop` is the decision half of the frame protocol. The caller makes
//! each driver call (wait on a fence, acquire an image, begin or end a command
//! buffer, reset a fence, submit, present, wait for the queue to go idle,
//! rebuild a swapchain-dependent object) with the handles that the loop hands
//! out, and reports the outcome back. The loop refuses any step that the
//! protocol does not allow in its current phase, and keeps the invariants
//! that make the ring safe: a slot is recorded again only after its fence was
//! seen signaled, a submission waits on the semaphore the image was acquired
//! with, a present waits on the semaphore the submission signals, and
//! swapchain-dependent objects are rebuilt only while nothing is in flight.
use vstd::prelude::*;
use ash::vk;
use crate::errors::VulkanError;

verus! {

/// `VK_PIPELINE_STAGE_COLOR_ATTACHMENT_OUTPUT_BIT`: the stage at which a
/// frame's submission waits for its swapchain image.
pub const STAGE_COLOR_ATTACHMENT_OUTPUT: u32 = 0x400;

/// The objects of one ring slot: a primary command buffer, a fence created
/// signaled, the semaphore an image is acquired with and the one the
/// submission signals when rendering completes.
#[derive(Clone, Copy)]
pub struct FrameSlot {
    pub command_buffer: vk::CommandBuffer,
    pub fence: vk::Fence,
    pub image_acquired: vk::Semaphore,
    pub render_complete: vk::Semaphore,
}

/// Where the frame loop stands. The first seven phases are the per-frame
/// protocol, in order; the next four are the chain (re)build, in order.
#[derive(Debug, Clone, Copy, PartialEq, Eq, Structural)]
pub enum FramePhase {
    /// Ready for a new frame or for a resize.
    Idle,
    /// The slot's fence was seen signaled; next: acquire an image.
    FenceWaited,
    /// An image is acquired; next: begin recording.
    ImageAcquired,
    /// The command buffer is recording; next: end recording.
    Recording,
    /// Recording ended; next: reset the fence.
    Recorded,
    /// The fence is reset; next: submit.
    FenceReset,
    /// The command buffer is submitted; next: present.
    Submitted,
    /// The queue is idle; next: build the swapchain.
    RecreatingSwapchain,
    /// The swapchain is built; next: rebuild the depth resources.
    RebuildingDepth,
    /// Depth resources are built; next: rebuild the render pass.
    RebuildingRenderPass,
    /// The render pass is built; next: rebuild the frame buffers.
    RebuildingFrameBuffers,
    /// A driver call failed in a way the protocol cannot recover from.
    Faulted,
}

/// What a frame's submission must wait on and signal.
#[derive(Clone, Copy)]
pub struct SubmitInfo {
    pub wait_semaphore: vk::Semaphore,
    pub wait_stage: u32,
    pub command_buffer: vk::CommandBuffer,
    pub signal_semaphore: vk::Semaphore,
    pub fence: vk::Fence,
}

/// What a frame's present must wait on, and which image it shows.
#[derive(Clone, Copy)]
pub struct PresentInfo {
    pub wait_semaphore: vk::Semaphore,
    pub image_index: u32,
}

pub open spec fn is_frame_phase(p: FramePhase) -> bool {
    p == FramePhase::Idle || p == FramePhase::FenceWaited || p == FramePhase::ImageAcquired
        || p == FramePhase::Recording || p == FramePhase::Recorded || p == FramePhase::FenceReset
        || p == FramePhase::Submitted
}

pub open spec fn is_rebuild_phase(p: FramePhase) -> bool {
    p == FramePhase::RecreatingSwapchain || p == FramePhase::RebuildingDepth
        || p == FramePhase::RebuildingRenderPass || p == FramePhase::RebuildingFrameBuffers
}

/// Phases in which the current slot's fence has been waited on and not yet
/// reused by a new submission.
pub open spec fn slot_owned_phase(p: FramePhase) -> bool {
    p == FramePhase::FenceWaited || p == FramePhase::ImageAcquired || p == FramePhase::Recording
        || p == FramePhase::Recorded || p == FramePhase::FenceReset
}

/// The ring of frames in flight and the swapchain chain it renders into.
pub struct FrameLoop {
    slots: Vec<FrameSlot>,
    frame_index: usize,
    back_buffer_index: usize,
    phase: FramePhase,
    in_flight: Vec<bool>,
    images: Vec<vk::Image>,
    views: Vec<vk::ImageView>,
    frame_buffers: Vec<vk::Framebuffer>,
    completed: Ghost<nat>,
}

fn protocol_error(step: &str) -> (r: VulkanError)
    ensures
        r matches VulkanError::FrameStateError(_),
{
    VulkanError::FrameStateError(step.to_string())
}

impl FrameLoop {
    pub closed spec fn spec_slots(&self) -> Seq<FrameSlot> {
        self.slots@
    }

    pub closed spec fn spec_frame_index(&self) -> int {
        self.frame_index as int
    }

    pub closed spec fn spec_back_buffer(&self) -> int {
        self.back_buffer_index as int
    }

    pub closed spec fn spec_phase(&self) -> FramePhase {
        self.phase
    }

    /// For each slot: its last submission has not yet been seen complete.
    pub closed spec fn spec_in_flight(&self) -> Seq<bool> {
        self.in_flight@
    }

    pub closed spec fn spec_images(&self) -> Seq<vk::Image> {
        self.images@
    }

    pub closed spec fn spec_views(&self) -> Seq<vk::ImageView> {
        self.views@
    }

    pub closed spec fn spec_frame_buffers(&self) -> Seq<vk::Framebuffer> {
        self.frame_buffers@
    }

    /// The number of frames presented since the loop was made.
    pub closed spec fn spec_completed(&self) -> nat {
        self.completed@
    }

    pub open spec fn frames_count_spec(&self) -> int {
        self.spec_slots().len() as int
    }

    pub open spec fn current_slot_spec(&self) -> FrameSlot {
        self.spec_slots()[self.spec_frame_index()]
    }

    /// No slot has a submission that is not known to be complete.
    pub open spec fn drained(&self) -> bool {
        forall|i: int| 0 <= i < self.spec_in_flight().len() ==> !self.spec_in_flight()[i]
    }

    /// The swapchain chain is complete: enough images for the ring, one view
    /// and one frame buffer per image.
    pub open spec fn chain_ready(&self) -> bool {
        &&& self.spec_images().len() >= self.frames_count_spec()
        &&& self.spec_views().len() == self.spec_images().len()
        &&& self.spec_frame_buffers().len() == self.spec_images().len()
    }

    pub open spec fn wf(&self) -> bool {
        &&& self.frames_count_spec() > 0
        &&& self.spec_in_flight().len() == self.frames_count_spec()
        &&& 0 <= self.spec_frame_index() < self.frames_count_spec()
        &&& self.spec_frame_index() == self.spec_completed() % (self.frames_count_spec() as nat)
        &&& self.spec_views().len() == self.spec_images().len()
        &&& self.spec_images().len() <= u32::MAX
        &&& 0 <= self.spec_back_buffer() && (self.spec_back_buffer() < self.spec_images().len()
            || self.spec_back_buffer() == 0)
        &&& is_frame_phase(self.spec_phase()) ==> self.chain_ready()
        &&& (is_frame_phase(self.spec_phase()) && self.spec_phase() != FramePhase::Idle
            && self.spec_phase() != FramePhase::FenceWaited) ==> 0 <= self.spec_back_buffer()
            < self.spec_images().len()
        &&& is_rebuild_phase(self.spec_phase()) ==> self.drained()
        &&& slot_owned_phase(self.spec_phase()) ==> !self.spec_in_flight()[self.spec_frame_index()]
        &&& (self.spec_phase() == FramePhase::RebuildingDepth || self.spec_phase()
            == FramePhase::RebuildingRenderPass || self.spec_phase()
            == FramePhase::RebuildingFrameBuffers) ==> self.spec_images().len()
            >= self.frames_count_spec()
    }

    /// The ring position and the chain are as in `other`.
    pub open spec fn same_chain(&self, other: &FrameLoop) -> bool {
        &&& self.spec_slots() == other.spec_slots()
        &&& self.spec_frame_index() == other.spec_frame_index()
        &&& self.spec_back_buffer() == other.spec_back_buffer()
        &&& self.spec_images() == other.spec_images()
        &&& self.spec_views() == other.spec_views()
        &&& self.spec_frame_buffers() == other.spec_frame_buffers()
        &&& self.spec_completed() == other.spec_completed()
    }

    /// Everything but the phase is as in `other`.
    pub open spec fn same_but_phase(&self, other: &FrameLoop) -> bool {
        &&& self.same_chain(other)
        &&& self.spec_in_flight() == other.spec_in_flight()
    }

    /// The ring position is as in `other`.
    pub open spec fn same_ring_position(&self, other: &FrameLoop) -> bool {
        &&& self.spec_slots() == other.spec_slots()
        &&& self.spec_frame_index() == other.spec_frame_index()
        &&& self.spec_completed() == other.spec_completed()
    }

    /// `self` is `other` with its phase set to `p`.
    pub open spec fn moved_to(&self, other: &FrameLoop, p: FramePhase) -> bool {
        &&& self.same_but_phase(other)
        &&& self.spec_phase() == p
    }

    /// A loop over the given slots, whose fences were created signaled. It
    /// starts in the swapchain-building phase: the first chain is built by
    /// the same steps as a resize. Fails when no slot is given or the slot
    /// count does not fit the image index type.
    pub fn new(slots: Vec<FrameSlot>) -> (r: Result<FrameLoop, VulkanError>)
        ensures
            slots@.len() == 0 || slots@.len() > u32::MAX ==> r matches Err(
                VulkanError::FrameStateError(_),
            ),
            0 < slots@.len() <= u32::MAX ==> (r matches Ok(l) && l.wf() && l.spec_slots()
                == slots@ && l.spec_frame_index() == 0 && l.spec_completed() == 0 && l.spec_phase()
                == FramePhase::RecreatingSwapchain && l.drained() && l.spec_images().len() == 0
                && l.spec_frame_buffers().len() == 0),
    {
        let n = slots.len();
        if n == 0 || n > u32::MAX as usize {
            return Err(protocol_error("a frame loop needs between one and u32::MAX slots"));
        }
        let in_flight = all_complete(n);
        let l = FrameLoop {
            slots,
            frame_index: 0,
            back_buffer_index: 0,
            phase: FramePhase::RecreatingSwapchain,
            in_flight,
            images: Vec::new(),
            views: Vec::new(),
            frame_buffers: Vec::new(),
            completed: Ghost(0),
        };
        assert(0nat % (n as nat) == 0) by (nonlinear_arith)
            requires
                n > 0,
        ;
        Ok(l)
    }

    /// The number of frames in flight, F.
    pub fn frames_count(&self) -> (r: usize)
        requires
            self.wf(),
        ensures
            r == self.frames_count_spec(),
    {
        self.slots.len()
    }

    /// The active ring slot.
    pub fn frame_index(&self) -> (r: usize)
        ensures
            r == self.spec_frame_index(),
    {
        self.frame_index
    }

    /// The swapchain image acquired for the current frame.
    pub fn back_buffer_index(&self) -> (r: usize)
        ensures
            r == self.spec_back_buffer(),
    {
        self.back_buffer_index
    }

    pub fn phase(&self) -> (r: FramePhase)
        ensures
            r == self.spec_phase(),
    {
        self.phase
    }

    /// The number of images in the current swapchain.
    pub fn image_count(&self) -> (r: usize)
        ensures
            r == self.spec_images().len(),
    {
        self.images.len()
    }

    /// Whether slot `index` has a submission not yet seen complete.
    pub fn is_in_flight(&self, index: usize) -> (r: bool)
        requires
            self.wf(),
            index < self.frames_count_spec(),
        ensures
            r == self.spec_in_flight()[index as int],
    {
        self.in_flight[index]
    }

    /// The objects of the active slot.
    pub fn current_slot(&self) -> (r: FrameSlot)
        requires
            self.wf(),
        ensures
            r == self.current_slot_spec(),
    {
        self.slots[self.frame_index]
    }

    /// The command buffer of the active slot.
    pub fn current_command_buffer(&self) -> (r: vk::CommandBuffer)
        requires
            self.wf(),
        ensures
            r == self.current_slot_spec().command_buffer,
    {
        self.slots[self.frame_index].command_buffer
    }

    /// The swapchain image of the current frame.
    pub fn current_back_buffer(&self) -> (r: vk::Image)
        requires
            self.wf(),
            self.spec_back_buffer() < self.spec_images().len(),
        ensures
            r == self.spec_images()[self.spec_back_buffer()],
    {
        self.images[self.back_buffer_index]
    }

    /// The view of the swapchain image of the current frame.
    pub fn current_back_buffer_view(&self) -> (r: vk::ImageView)
        requires
            self.wf(),
            self.spec_back_buffer() < self.spec_images().len(),
        ensures
            r == self.spec_views()[self.spec_back_buffer()],
    {
        self.views[self.back_buffer_index]
    }

    /// The frame buffer bound to the swapchain image of the current frame.
    pub fn current_frame_buffer(&self) -> (r: vk::Framebuffer)
        requires
            self.wf(),
            self.spec_back_buffer() < self.spec_frame_buffers().len(),
        ensures
            r == self.spec_frame_buffers()[self.spec_back_buffer()],
    {
        self.frame_buffers[self.back_buffer_index]
    }

    /// What the current frame's submission waits on and signals: it waits at
    /// the color-attachment-output stage on the semaphore the image was
    /// acquired with, and signals the slot's render-complete semaphore and
    /// fence.
    pub fn submit_info(&self) -> (r: SubmitInfo)
        requires
            self.wf(),
        ensures
            r.wait_semaphore == self.current_slot_spec().image_acquired,
            r.wait_stage == STAGE_COLOR_ATTACHMENT_OUTPUT,
            r.command_buffer == self.current_slot_spec().command_buffer,
            r.signal_semaphore == self.current_slot_spec().render_complete,
            r.fence == self.current_slot_spec().fence,
    {
        let s = self.slots[self.frame_index];
        SubmitInfo {
            wait_semaphore: s.image_acquired,
            wait_stage: STAGE_COLOR_ATTACHMENT_OUTPUT,
            command_buffer: s.command_buffer,
            signal_semaphore: s.render_complete,
            fence: s.fence,
        }
    }

    /// What the current frame's present waits on and shows: the slot's
    /// render-complete semaphore and the acquired image.
    pub fn present_info(&self) -> (r: PresentInfo)
        requires
            self.wf(),
        ensures
            r.wait_semaphore == self.current_slot_spec().render_complete,
            r.image_index == self.spec_back_buffer(),
    {
        let s = self.slots[self.frame_index];
        proof {
            assert(self.spec_back_buffer() <= u32::MAX);
        }
        PresentInfo { wait_semaphore: s.render_complete, image_index: self.back_buffer_index as u32 }
    }

    /// Frame begin, first step: the caller waited on `current_slot().fence`.
    /// From `Idle`, success marks the slot's last submission complete and
    /// moves to `FenceWaited`; failure (a timeout means a hung or lost
    /// device) faults the loop and is returned. Refused in any other phase.
    pub fn fence_waited(&mut self, outcome: Result<(), VulkanError>) -> (r: Result<(), VulkanError>)
        requires
            old(self).wf(),
        ensures
            final(self).wf(),
            old(self).spec_phase() != FramePhase::Idle ==> (r matches Err(
                VulkanError::FrameStateError(_),
            ) && *final(self) == *old(self)),
            old(self).spec_phase() == FramePhase::Idle && outcome is Ok ==> (r is Ok
                && final(self).same_chain(old(self)) && final(self).spec_phase()
                == FramePhase::FenceWaited && final(self).spec_in_flight() == old(self).spec_in_flight().update(old(self).spec_frame_index(), false)),
            old(self).spec_phase() == FramePhase::Idle && outcome is Err ==> (r == outcome
                && final(self).moved_to(old(self), FramePhase::Faulted)),
    {
        if self.phase != FramePhase::Idle {
            return Err(protocol_error("fence wait outside of an idle frame loop"));
        }
        match outcome {
            Ok(()) => {
                let i = self.frame_index;
                self.in_flight.set(i, false);
                self.phase = FramePhase::FenceWaited;
                Ok(())
            },
            Err(e) => {
                self.phase = FramePhase::Faulted;
                Err(e)
            },
        }
    }

    /// Frame begin, second step: the caller acquired an image with
    /// `current_slot().image_acquired`. From `FenceWaited`, an index of the
    /// current swapchain becomes the back buffer and the loop moves to
    /// `ImageAcquired`. An index outside the swapchain faults the loop with
    /// a swapchain error. A failed acquire (an out-of-date swapchain among
    /// them) returns the loop to `Idle` so that the caller can resize and
    /// begin the frame again; the error is returned. Refused in any other
    /// phase.
    pub fn image_acquired(&mut self, outcome: Result<u32, VulkanError>) -> (r: Result<
        (),
        VulkanError,
    >)
        requires
            old(self).wf(),
        ensures
            final(self).wf(),
            old(self).spec_phase() != FramePhase::FenceWaited ==> (r matches Err(
                VulkanError::FrameStateError(_),
            ) && *final(self) == *old(self)),
            old(self).spec_phase() == FramePhase::FenceWaited ==> match outcome {
                Ok(i) => if i < old(self).spec_images().len() {
                    &&& r is Ok
                    &&& final(self).spec_phase() == FramePhase::ImageAcquired
                    &&& final(self).spec_back_buffer() == i
                    &&& final(self).spec_slots() == old(self).spec_slots()
                    &&& final(self).spec_frame_index() == old(self).spec_frame_index()
                    &&& final(self).spec_in_flight() == old(self).spec_in_flight()
                    &&& final(self).spec_images() == old(self).spec_images()
                    &&& final(self).spec_views() == old(self).spec_views()
                    &&& final(self).spec_frame_buffers() == old(self).spec_frame_buffers()
                    &&& final(self).spec_completed() == old(self).spec_completed()
                } else {
                    &&& r matches Err(VulkanError::SwapchainError(_))
                    &&& final(self).moved_to(old(self), FramePhase::Faulted)
                },
                Err(e) => r == Err::<(), VulkanError>(e) && final(self).moved_to(
                    old(self),
                    FramePhase::Idle,
                ),
            },
    {
        if self.phase != FramePhase::FenceWaited {
            return Err(protocol_error("image acquire before the slot's fence was waited on"));
        }
        match outcome {
            Ok(i) => {
                if (i as usize) < self.images.len() {
                    self.back_buffer_index = i as usize;
                    self.phase = FramePhase::ImageAcquired;
                    Ok(())
                } else {
                    self.phase = FramePhase::Faulted;
                    Err(VulkanError::SwapchainError("acquired image index out of range".to_string()))
                }
            },
            Err(e) => {
                self.phase = FramePhase::Idle;
                Err(e)
            },
        }
    }

    /// One step of the frame protocol that only moves the phase on: from
    /// `from` to `to` on success; a failure faults the loop.
    fn step(&mut self, from: FramePhase, to: FramePhase, outcome: Result<(), VulkanError>, what: &str) -> (r: Result<(), VulkanError>)
        requires
            old(self).wf(),
            slot_owned_phase(from) || from == FramePhase::ImageAcquired,
            slot_owned_phase(to),
            from != FramePhase::FenceWaited,
            to != FramePhase::FenceWaited,
        ensures
            final(self).wf(),
            old(self).spec_phase() != from ==> (r matches Err(VulkanError::FrameStateError(_))
                && *final(self) == *old(self)),
            old(self).spec_phase() == from && outcome is Ok ==> (r is Ok && final(self).moved_to(
                old(self),
                to,
            )),
            old(self).spec_phase() == from && outcome is Err ==> (r == outcome && final(self).moved_to(old(self), FramePhase::Faulted)),
    {
        if self.phase != from {
            return Err(protocol_error(what));
        }
        match outcome {
            Ok(()) => {
                self.phase = to;
                Ok(())
            },
            Err(e) => {
                self.phase = FramePhase::Faulted;
                Err(e)
            },
        }
    }

    /// Frame begin, last step: the caller began recording
    /// `current_command_buffer()`. `ImageAcquired` moves to `Recording`;
    /// failure faults the loop. Refused in any other phase.
    pub fn recording_begun(&mut self, outcome: Result<(), VulkanError>) -> (r: Result<
        (),
        VulkanError,
    >)
        requires
            old(self).wf(),
        ensures
            final(self).wf(),
            old(self).spec_phase() != FramePhase::ImageAcquired ==> (r matches Err(
                VulkanError::FrameStateError(_),
            ) && *final(self) == *old(self)),
            old(self).spec_phase() == FramePhase::ImageAcquired && outcome is Ok ==> (r is Ok
                && final(self).moved_to(old(self), FramePhase::Recording)),
            old(self).spec_phase() == FramePhase::ImageAcquired && outcome is Err ==> (r == outcome
                && final(self).moved_to(old(self), FramePhase::Faulted)),
    {
        self.step(
            FramePhase::ImageAcquired,
            FramePhase::Recording,
            outcome,
            "recording begun before an image was acquired",
        )
    }

    /// Frame end, first step: the caller ended recording. `Recording` moves
    /// to `Recorded`; failure faults the loop. Refused in any other phase.
    pub fn recording_ended(&mut self, outcome: Result<(), VulkanError>) -> (r: Result<
        (),
        VulkanError,
    >)
        requires
            old(self).wf(),
        ensures
            final(self).wf(),
            old(self).spec_phase() != FramePhase::Recording ==> (r matches Err(
                VulkanError::FrameStateError(_),
            ) && *final(self) == *old(self)),
            old(self).spec_phase() == FramePhase::Recording && outcome is Ok ==> (r is Ok
                && final(self).moved_to(old(self), FramePhase::Recorded)),
            old(self).spec_phase() == FramePhase::Recording && outcome is Err ==> (r == outcome
                && final(self).moved_to(old(self), FramePhase::Faulted)),
    {
        self.step(
            FramePhase::Recording,
            FramePhase::Recorded,
            outcome,
            "recording ended outside of a frame",
        )
    }

    /// Frame end, second step: the caller reset `current_slot().fence`.
    /// `Recorded` moves to `FenceReset`; failure faults the loop. Refused in
    /// any other phase.
    pub fn fence_reset(&mut self, outcome: Result<(), VulkanError>) -> (r: Result<
        (),
        VulkanError,
    >)
        requires
            old(self).wf(),
        ensures
            final(self).wf(),
            old(self).spec_phase() != FramePhase::Recorded ==> (r matches Err(
                VulkanError::FrameStateError(_),
            ) && *final(self) == *old(self)),
            old(self).spec_phase() == FramePhase::Recorded && outcome is Ok ==> (r is Ok
                && final(self).moved_to(old(self), FramePhase::FenceReset)),
            old(self).spec_phase() == FramePhase::Recorded && outcome is Err ==> (r == outcome
                && final(self).moved_to(old(self), FramePhase::Faulted)),
    {
        self.step(
            FramePhase::Recorded,
            FramePhase::FenceReset,
            outcome,
            "fence reset before recording ended",
        )
    }

    /// Frame end, last step: the caller submitted with `submit_info()`.
    /// `FenceReset` moves to `Submitted` and the slot is in flight until its
    /// fence is next seen signaled; failure faults the loop (the fence is
    /// reset and will not signal). Refused in any other phase.
    pub fn submitted(&mut self, outcome: Result<(), VulkanError>) -> (r: Result<(), VulkanError>)
        requires
            old(self).wf(),
        ensures
            final(self).wf(),
            old(self).spec_phase() != FramePhase::FenceReset ==> (r matches Err(
                VulkanError::FrameStateError(_),
            ) && *final(self) == *old(self)),
            old(self).spec_phase() == FramePhase::FenceReset && outcome is Ok ==> (r is Ok
                && final(self).same_chain(old(self)) && final(self).spec_phase()
                == FramePhase::Submitted && final(self).spec_in_flight() == old(self).spec_in_flight().update(old(self).spec_frame_index(), true)),
            old(self).spec_phase() == FramePhase::FenceReset && outcome is Err ==> (r == outcome
                && final(self).moved_to(old(self), FramePhase::Faulted)),
    {
        if self.phase != FramePhase::FenceReset {
            return Err(protocol_error("submit before the slot's fence was reset"));
        }
        match outcome {
            Ok(()) => {
                let i = self.frame_index;
                self.in_flight.set(i, true);
                self.phase = FramePhase::Submitted;
                Ok(())
            },
            Err(e) => {
                self.phase = FramePhase::Faulted;
                Err(e)
            },
        }
    }

    /// Frame present: the caller presented with `present_info()`. From
    /// `Submitted`, success completes the frame: the ring moves to the next
    /// slot, `(i + 1) mod F`, and the loop is `Idle`. A failed present (an
    /// out-of-date swapchain among them) returns the loop to `Idle` on the
    /// same slot, so that the caller can resize and render the frame again;
    /// the error is returned. Refused in any other phase.
    pub fn presented(&mut self, outcome: Result<(), VulkanError>) -> (r: Result<(), VulkanError>)
        requires
            old(self).wf(),
        ensures
            final(self).wf(),
            old(self).spec_phase() != FramePhase::Submitted ==> (r matches Err(
                VulkanError::FrameStateError(_),
            ) && *final(self) == *old(self)),
            old(self).spec_phase() == FramePhase::Submitted && outcome is Ok ==> (r is Ok
                && final(self).spec_phase() == FramePhase::Idle && final(self).spec_frame_index()
                == (old(self).spec_frame_index() + 1) % old(self).frames_count_spec() && final(self).spec_completed() == old(self).spec_completed() + 1 && final(self).spec_slots()
                == old(self).spec_slots() && final(self).spec_back_buffer() == old(self).spec_back_buffer() && final(self).spec_in_flight() == old(self).spec_in_flight()
                && final(self).spec_images() == old(self).spec_images() && final(self).spec_views()
                == old(self).spec_views() && final(self).spec_frame_buffers() == old(self).spec_frame_buffers()),
            old(self).spec_phase() == FramePhase::Submitted && outcome is Err ==> (r == outcome
                && final(self).moved_to(old(self), FramePhase::Idle)),
    {
        if self.phase != FramePhase::Submitted {
            return Err(protocol_error("present before the frame was submitted"));
        }
        match outcome {
            Ok(()) => {
                let n = self.slots.len();
                let next = if self.frame_index + 1 == n { 0 } else { self.frame_index + 1 };
                proof {
                    lemma_next_slot(self.completed@, n as nat, self.frame_index as nat);
                    vstd::arithmetic::div_mod::lemma_small_mod(self.frame_index as nat, n as nat);
                    lemma_next_slot(self.frame_index as nat, n as nat, self.frame_index as nat);
                }
                self.frame_index = next;
                self.completed = Ghost(self.completed@ + 1);
                self.phase = FramePhase::Idle;
                Ok(())
            },
            Err(e) => {
                self.phase = FramePhase::Idle;
                Err(e)
            },
        }
    }

    /// Resize, first step: the caller waited for the queue to go idle. From
    /// `Idle`, success marks every slot complete, hands back the frame
    /// buffers of the old chain for the caller to destroy, and moves to
    /// `RecreatingSwapchain`; failure faults the loop. Refused in any other
    /// phase.
    pub fn begin_resize(&mut self, idle: Result<(), VulkanError>) -> (r: Result<
        Vec<vk::Framebuffer>,
        VulkanError,
    >)
        requires
            old(self).wf(),
        ensures
            final(self).wf(),
            old(self).spec_phase() != FramePhase::Idle ==> (r matches Err(
                VulkanError::FrameStateError(_),
            ) && *final(self) == *old(self)),
            old(self).spec_phase() == FramePhase::Idle && idle is Ok ==> (r matches Ok(old_fbs)
                && old_fbs@ == old(self).spec_frame_buffers() && final(self).spec_phase()
                == FramePhase::RecreatingSwapchain && final(self).drained() && final(self).spec_in_flight().len() == old(self).spec_in_flight().len() && final(self).spec_frame_buffers().len() == 0 && final(self).same_ring_position(old(self))
                && final(self).spec_images() == old(self).spec_images()),
            old(self).spec_phase() == FramePhase::Idle && idle is Err ==> (r matches Err(e) && idle
                == Err::<(), VulkanError>(e) && final(self).moved_to(old(self), FramePhase::Faulted)),
    {
        if self.phase != FramePhase::Idle {
            return Err(protocol_error("resize in the middle of a frame"));
        }
        match idle {
            Ok(()) => {
                self.in_flight = all_complete(self.in_flight.len());
                let mut old_fbs: Vec<vk::Framebuffer> = Vec::new();
                std::mem::swap(&mut old_fbs, &mut self.frame_buffers);
                self.phase = FramePhase::RecreatingSwapchain;
                Ok(old_fbs)
            },
            Err(e) => {
                self.phase = FramePhase::Faulted;
                Err(e)
            },
        }
    }

    /// Resize, second step: the caller built the new swapchain (with the old
    /// one as a hint) and destroyed the old one, and hands over the new
    /// images and their views. From `RecreatingSwapchain`, a chain with at
    /// least F images and one view per image is adopted, the back buffer
    /// index restarts at 0, and the loop moves to `RebuildingDepth`. Fewer
    /// images than frames in flight, or a view count that differs, fault the
    /// loop with a swapchain creation error; so does a failure, which is
    /// returned. Refused in any other phase.
    pub fn swapchain_recreated(
        &mut self,
        outcome: Result<(Vec<vk::Image>, Vec<vk::ImageView>), VulkanError>,
    ) -> (r: Result<(), VulkanError>)
        requires
            old(self).wf(),
        ensures
            final(self).wf(),
            old(self).spec_phase() != FramePhase::RecreatingSwapchain ==> (r matches Err(
                VulkanError::FrameStateError(_),
            ) && *final(self) == *old(self)),
            old(self).spec_phase() == FramePhase::RecreatingSwapchain ==> match outcome {
                Ok((images, views)) => if images@.len() >= old(self).frames_count_spec()
                    && views@.len() == images@.len() && images@.len() <= u32::MAX {
                    &&& r is Ok
                    &&& final(self).spec_phase() == FramePhase::RebuildingDepth
                    &&& final(self).spec_images() == images@
                    &&& final(self).spec_views() == views@
                    &&& final(self).spec_back_buffer() == 0
                    &&& final(self).spec_frame_buffers() == old(self).spec_frame_buffers()
                    &&& final(self).spec_in_flight() == old(self).spec_in_flight()
                    &&& final(self).same_ring_position(old(self))
                } else {
                    &&& r matches Err(VulkanError::SwapchainCreationError(_))
                    &&& final(self).moved_to(old(self), FramePhase::Faulted)
                },
                Err(e) => r == Err::<(), VulkanError>(e) && final(self).moved_to(
                    old(self),
                    FramePhase::Faulted,
                ),
            },
    {
        if self.phase != FramePhase::RecreatingSwapchain {
            return Err(protocol_error("swapchain handed over outside of a resize"));
        }
        match outcome {
            Ok((images, views)) => {
                if images.len() >= self.slots.len() && views.len() == images.len() && images.len()
                    <= u32::MAX as usize {
                    self.images = images;
                    self.views = views;
                    self.back_buffer_index = 0;
                    self.phase = FramePhase::RebuildingDepth;
                    Ok(())
                } else {
                    self.phase = FramePhase::Faulted;
                    Err(
                        VulkanError::SwapchainCreationError(
                            "the swapchain has fewer images than frames in flight".to_string(),
                        ),
                    )
                }
            },
            Err(e) => {
                self.phase = FramePhase::Faulted;
                Err(e)
            },
        }
    }

    /// One step of the chain rebuild that only moves the phase on.
    fn rebuild_step(&mut self, from: FramePhase, to: FramePhase, outcome: Result<(), VulkanError>, what: &str) -> (r: Result<(), VulkanError>)
        requires
            old(self).wf(),
            from == FramePhase::RebuildingDepth || from == FramePhase::RebuildingRenderPass,
            to == FramePhase::RebuildingRenderPass || to == FramePhase::RebuildingFrameBuffers,
        ensures
            final(self).wf(),
            old(self).spec_phase() != from ==> (r matches Err(VulkanError::FrameStateError(_))
                && *final(self) == *old(self)),
            old(self).spec_phase() == from && outcome is Ok ==> (r is Ok && final(self).moved_to(
                old(self),
                to,
            )),
            old(self).spec_phase() == from && outcome is Err ==> (r == outcome && final(self).moved_to(old(self), FramePhase::Faulted)),
    {
        if self.phase != from {
            return Err(protocol_error(what));
        }
        match outcome {
            Ok(()) => {
                self.phase = to;
                Ok(())
            },
            Err(e) => {
                self.phase = FramePhase::Faulted;
                Err(e)
            },
        }
    }

    /// Resize, third step: the caller destroyed the old depth resources and
    /// built new ones at the new extent. `RebuildingDepth` moves to
    /// `RebuildingRenderPass`; failure faults the loop. Refused in any other
    /// phase.
    pub fn depth_rebuilt(&mut self, outcome: Result<(), VulkanError>) -> (r: Result<
        (),
        VulkanError,
    >)
        requires
            old(self).wf(),
        ensures
            final(self).wf(),
            old(self).spec_phase() != FramePhase::RebuildingDepth ==> (r matches Err(
                VulkanError::FrameStateError(_),
            ) && *final(self) == *old(self)),
            old(self).spec_phase() == FramePhase::RebuildingDepth && outcome is Ok ==> (r is Ok
                && final(self).moved_to(old(self), FramePhase::RebuildingRenderPass)),
            old(self).spec_phase() == FramePhase::RebuildingDepth && outcome is Err ==> (r
                == outcome && final(self).moved_to(old(self), FramePhase::Faulted)),
    {
        self.rebuild_step(
            FramePhase::RebuildingDepth,
            FramePhase::RebuildingRenderPass,
            outcome,
            "depth resources rebuilt out of order",
        )
    }

    /// Resize, fourth step: the caller destroyed the old render pass and
    /// built a new one for the new swapchain and depth formats.
    /// `RebuildingRenderPass` moves to `RebuildingFrameBuffers`; failure
    /// faults the loop. Refused in any other phase.
    pub fn render_pass_rebuilt(&mut self, outcome: Result<(), VulkanError>) -> (r: Result<
        (),
        VulkanError,
    >)
        requires
            old(self).wf(),
        ensures
            final(self).wf(),
            old(self).spec_phase() != FramePhase::RebuildingRenderPass ==> (r matches Err(
                VulkanError::FrameStateError(_),
            ) && *final(self) == *old(self)),
            old(self).spec_phase() == FramePhase::RebuildingRenderPass && outcome is Ok ==> (r is Ok
                && final(self).moved_to(old(self), FramePhase::RebuildingFrameBuffers)),
            old(self).spec_phase() == FramePhase::RebuildingRenderPass && outcome is Err ==> (r
                == outcome && final(self).moved_to(old(self), FramePhase::Faulted)),
    {
        self.rebuild_step(
            FramePhase::RebuildingRenderPass,
            FramePhase::RebuildingFrameBuffers,
            outcome,
            "render pass rebuilt out of order",
        )
    }

    /// Resize, last step: the caller built one frame buffer per swapchain
    /// image, in image order. From `RebuildingFrameBuffers`, exactly one per
    /// image completes the chain and the loop is `Idle`; another count faults
    /// the loop with a frame-state error; a failure faults it and is
    /// returned. Refused in any other phase.
    pub fn frame_buffers_rebuilt(&mut self, outcome: Result<Vec<vk::Framebuffer>, VulkanError>) -> (r: Result<
        (),
        VulkanError,
    >)
        requires
            old(self).wf(),
        ensures
            final(self).wf(),
            old(self).spec_phase() != FramePhase::RebuildingFrameBuffers ==> (r matches Err(
                VulkanError::FrameStateError(_),
            ) && *final(self) == *old(self)),
            old(self).spec_phase() == FramePhase::RebuildingFrameBuffers ==> match outcome {
                Ok(fbs) => if fbs@.len() == old(self).spec_images().len() {
                    &&& r is Ok
                    &&& final(self).spec_phase() == FramePhase::Idle
                    &&& final(self).spec_frame_buffers() == fbs@
                    &&& final(self).spec_images() == old(self).spec_images()
                    &&& final(self).spec_views() == old(self).spec_views()
                    &&& final(self).spec_back_buffer() == old(self).spec_back_buffer()
                    &&& final(self).spec_in_flight() == old(self).spec_in_flight()
                    &&& final(self).same_ring_position(old(self))
                } else {
                    &&& r matches Err(VulkanError::FrameStateError(_))
                    &&& final(self).moved_to(old(self), FramePhase::Faulted)
                },
                Err(e) => r == Err::<(), VulkanError>(e) && final(self).moved_to(
                    old(self),
                    FramePhase::Faulted,
                ),
            },
    {
        if self.phase != FramePhase::RebuildingFrameBuffers {
            return Err(protocol_error("frame buffers rebuilt out of order"));
        }
        match outcome {
            Ok(fbs) => {
                if fbs.len() == self.images.len() {
                    self.frame_buffers = fbs;
                    self.phase = FramePhase::Idle;
                    Ok(())
                } else {
                    self.phase = FramePhase::Faulted;
                    Err(protocol_error("one frame buffer per swapchain image is needed"))
                }
            },
            Err(e) => {
                self.phase = FramePhase::Faulted;
                Err(e)
            },
        }
    }
}

/// After any sequence of completed frames, whatever else happened between
/// them (failed acquires or presents, resizes), the active ring slot is the
/// number of completed frames modulo the number of frames in flight.
pub proof fn lemma_active_slot_counts_frames(l: &FrameLoop)
    requires
        l.wf(),
    ensures
        l.spec_frame_index() == l.spec_completed() % (l.frames_count_spec() as nat),
{
}

/// While swapchain-dependent objects are being rebuilt, no submission made
/// before the resize is still pending: the rebuild starts only after the
/// queue was seen idle.
pub proof fn lemma_rebuild_only_when_drained(l: &FrameLoop)
    requires
        l.wf(),
        is_rebuild_phase(l.spec_phase()),
    ensures
        l.drained(),
{
}

/// Whenever frames can be rendered, the swapchain has at least as many
/// images as there are frames in flight, and one view and one frame buffer
/// per image; every rebuilt chain is held to this.
pub proof fn lemma_chain_covers_frames(l: &FrameLoop)
    requires
        l.wf(),
        is_frame_phase(l.spec_phase()),
    ensures
        l.spec_images().len() >= l.frames_count_spec(),
        l.spec_views().len() == l.spec_images().len(),
        l.spec_frame_buffers().len() == l.spec_images().len(),
{
}

/// A slot's command buffer is recorded, and its fence reset, only while the
/// slot's previous submission is known to be complete.
pub proof fn lemma_slot_reused_after_fence(l: &FrameLoop)
    requires
        l.wf(),
        slot_owned_phase(l.spec_phase()),
    ensures
        !l.spec_in_flight()[l.spec_frame_index()],
{
}

/// `n` slots, none of them in flight.
fn all_complete(n: usize) -> (r: Vec<bool>)
    ensures
        r@.len() == n,
        forall|j: int| 0 <= j < n ==> !r@[j],
{
    let mut v: Vec<bool> = Vec::new();
    let mut i: usize = 0;
    while i < n
        invariant
            i <= n,
            v@.len() == i,
            forall|j: int| 0 <= j < i ==> !v@[j],
        decreases n - i,
    {
        v.push(false);
        i = i + 1;
    }
    v
}

/// Moving to the next slot keeps the slot equal to the count of completed
/// frames modulo F.
proof fn lemma_next_slot(completed: nat, n: nat, index: nat)
    requires
        n > 0,
        index == completed % n,
    ensures
        (if index + 1 == n { 0 } else { index + 1 }) == (completed + 1) % n,
{
    let q = completed as int / n as int;
    vstd::arithmetic::div_mod::lemma_fundamental_div_mod(completed as int, n as int);
    if index + 1 < n {
        vstd::arithmetic::div_mod::lemma_fundamental_div_mod_converse(
            (completed + 1) as int,
            n as int,
            q,
            (index + 1) as int,
        );
    } else {
        assert((completed + 1) as int == (q + 1) * n as int + 0) by (nonlinear_arith)
            requires
                completed as int == n as int * q + index as int,
                index + 1 == n,
        ;
        vstd::arithmetic::div_mod::lemma_fundamental_div_mod_converse(
            (completed + 1) as int,
            n as int,
            q + 1,
            0,
        );
    }
}

} // verus!
