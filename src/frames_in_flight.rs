//! N frames in flight: the frame slots that let the CPU record frame K+1
//! while the GPU still executes frame K, and the protocol that hands them out.
//!
//! The device work (waiting on a fence, acquiring and presenting images,
//! submitting command buffers) is done by the caller; this module decides
//! which objects that work uses and keeps the state of every slot.

use vstd::prelude::*;

use crate::swapchain::{acquire_outcome, AcquireImageStatus, Swapchain, ERROR_OUT_OF_DATE};
use vstd::arithmetic::div_mod::{lemma_add_mod_noop, lemma_small_mod};

verus! {

/// Where a frame slot stands.
#[derive(Copy, Clone, Debug, PartialEq, Eq, Structural)]
pub enum FrameSyncStatus {
    /// A frame that uses the slot was started and not presented yet; nothing
    /// was submitted for it, so its fence must not be waited on.
    Assembling,
    /// No caller holds the slot; its last submission, if any, signals its
    /// fence when the GPU is done with it.
    Pending,
}

/// The device objects, as raw handles, that one frame slot owns.
#[derive(Copy, Clone, Debug, PartialEq, Eq, Structural)]
pub struct FrameResources {
    /// Signalled when the acquired image is ready to be drawn to.
    pub swapchain_image_acquired: u64,
    /// Signalled when the slot's last submission finished on the GPU.
    pub graphics_commands_complete: u64,
    pub command_pool: u64,
    pub command_buffer: u64,
}

/// One frame slot: its status and its objects.
#[derive(Copy, Clone, Debug, PartialEq, Eq, Structural)]
pub struct FrameSync {
    pub status: FrameSyncStatus,
    pub resources: FrameResources,
}

/// What a [Frame] holds.
pub struct FrameView {
    pub command_buffer: u64,
    pub swapchain_image_index: u32,
    pub frame_index: nat,
    pub swapchain_image: u64,
    pub swapchain_image_view: u64,
}

/// A started frame: the slot's command buffer to record into and the
/// acquired image to draw to.
///
/// Only [FramesInFlight::start_frame] makes one, and
/// [FramesInFlight::present_frame] takes it back. No two frames with the same
/// frame index are in flight on the GPU at the same time.
#[derive(Copy, Clone, Debug, PartialEq, Eq, Structural)]
pub struct Frame {
    command_buffer: u64,
    swapchain_image_index: u32,
    frame_index: usize,
    swapchain_image: u64,
    swapchain_image_view: u64,
}

impl View for Frame {
    type V = FrameView;

    closed spec fn view(&self) -> FrameView {
        FrameView {
            command_buffer: self.command_buffer,
            swapchain_image_index: self.swapchain_image_index,
            frame_index: self.frame_index as nat,
            swapchain_image: self.swapchain_image,
            swapchain_image_view: self.swapchain_image_view,
        }
    }
}

impl Frame {
    pub fn command_buffer(&self) -> (r: u64)
        ensures
            r == self@.command_buffer,
    {
        self.command_buffer
    }

    pub fn swapchain_image_index(&self) -> (r: u32)
        ensures
            r == self@.swapchain_image_index,
    {
        self.swapchain_image_index
    }

    pub fn frame_index(&self) -> (r: usize)
        ensures
            r == self@.frame_index,
    {
        self.frame_index
    }

    pub fn swapchain_image(&self) -> (r: u64)
        ensures
            r == self@.swapchain_image,
    {
        self.swapchain_image
    }

    pub fn swapchain_image_view(&self) -> (r: u64)
        ensures
            r == self@.swapchain_image_view,
    {
        self.swapchain_image_view
    }
}

/// The outcome of starting a frame.
#[derive(Copy, Clone, Debug, PartialEq, Eq, Structural)]
pub enum FrameStatus {
    /// The frame is started; it must be handed back to
    /// [FramesInFlight::present_frame].
    FrameStarted(Frame),
    /// The chain must be rebuilt before the next frame.
    SwapchainNeedsRebuild,
}

/// The objects a frame's command buffer is submitted with.
#[derive(Copy, Clone, Debug, PartialEq, Eq, Structural)]
pub struct Submission {
    pub command_buffer: u64,
    /// Waited on before color output.
    pub wait_semaphore: u64,
    /// The present semaphore of the frame's image, signalled on completion.
    pub signal_semaphore: u64,
    /// The slot's fence, signalled on completion.
    pub fence: u64,
}

/// The objects a frame's image is presented with.
#[derive(Copy, Clone, Debug, PartialEq, Eq, Structural)]
pub struct Presentation {
    pub wait_semaphore: u64,
    pub image_index: u32,
}

/// What [FramesInFlight] holds.
pub struct FramesInFlightView {
    pub present_semaphores: Seq<u64>,
    pub frames: Seq<FrameSync>,
    pub frame_index: nat,
}

impl FramesInFlightView {
    pub open spec fn wf(self) -> bool {
        self.frames.len() >= 1 && self.frame_index < self.frames.len()
    }

    /// The slot that the next frame uses: the one after the current one.
    pub open spec fn next_index(self) -> nat {
        ((self.frame_index + 1) % self.frames.len()) as nat
    }

    /// The state after a frame was started on the next slot.
    pub open spec fn started(self) -> FramesInFlightView {
        let i = self.next_index();
        FramesInFlightView {
            present_semaphores: self.present_semaphores,
            frames: self.frames.update(
                i as int,
                FrameSync { status: FrameSyncStatus::Assembling, resources: self.frames[i as int].resources },
            ),
            frame_index: i,
        }
    }

    /// The state after the chain answered an acquisition with `status`: the
    /// next slot is taken when an image was acquired, and nothing changes
    /// when the chain needs a rebuild.
    pub open spec fn after_acquire(self, status: AcquireImageStatus) -> FramesInFlightView {
        match status {
            AcquireImageStatus::ImageAcquired(_) => self.started(),
            AcquireImageStatus::SwapchainNeedsRebuild => self,
        }
    }

    /// The state after the frame on slot `index` was submitted.
    pub open spec fn presented(self, index: nat) -> FramesInFlightView {
        FramesInFlightView {
            present_semaphores: self.present_semaphores,
            frames: self.frames.update(
                index as int,
                FrameSync { status: FrameSyncStatus::Pending, resources: self.frames[index as int].resources },
            ),
            frame_index: self.frame_index,
        }
    }
}

/// The fences of the `Pending` slots, in slot order.
pub open spec fn pending_fences_of(frames: Seq<FrameSync>) -> Seq<u64>
    decreases frames.len(),
{
    if frames.len() == 0 {
        Seq::empty()
    } else {
        let rest = pending_fences_of(frames.drop_last());
        if frames.last().status == FrameSyncStatus::Pending {
            rest.push(frames.last().resources.graphics_commands_complete)
        } else {
            rest
        }
    }
}

/// The acquire semaphores of all slots, in slot order.
pub open spec fn acquire_semaphores_of(frames: Seq<FrameSync>) -> Seq<u64> {
    frames.map_values(|f: FrameSync| f.resources.swapchain_image_acquired)
}

/// The frame slots, cycled round-robin, and one present semaphore per image
/// of the chain (an image can be revisited by different slots).
pub struct FramesInFlight {
    swapchain_image_present_semaphores: Vec<u64>,
    frames: Vec<FrameSync>,
    frame_index: usize,
}

impl View for FramesInFlight {
    type V = FramesInFlightView;

    closed spec fn view(&self) -> FramesInFlightView {
        FramesInFlightView {
            present_semaphores: self.swapchain_image_present_semaphores@,
            frames: self.frames@,
            frame_index: self.frame_index as nat,
        }
    }
}

impl FramesInFlight {
    /// Sets up the slots, one per element of `frames`, all `Pending` (their
    /// fences are created signalled), with the present semaphores of the
    /// chain's images. The first frame started uses slot 1.
    pub fn new(swapchain_image_present_semaphores: Vec<u64>, frames: Vec<FrameResources>) -> (r:
        FramesInFlight)
        requires
            frames.len() >= 1,
        ensures
            r@.wf(),
            r@.frame_index == 0,
            r@.present_semaphores == swapchain_image_present_semaphores@,
            r@.frames.len() == frames.len(),
            forall|i: int|
                0 <= i < frames.len() ==> r@.frames[i] == (FrameSync {
                    status: FrameSyncStatus::Pending,
                    resources: frames@[i],
                }),
    {
        let mut slots: Vec<FrameSync> = Vec::with_capacity(frames.len());
        let mut i: usize = 0;
        while i < frames.len()
            invariant
                i <= frames.len(),
                slots.len() == i,
                forall|j: int|
                    0 <= j < i ==> slots@[j] == (FrameSync {
                        status: FrameSyncStatus::Pending,
                        resources: frames@[j],
                    }),
            decreases frames.len() - i,
        {
            slots.push(FrameSync { status: FrameSyncStatus::Pending, resources: frames[i] });
            i = i + 1;
        }
        FramesInFlight { swapchain_image_present_semaphores, frames: slots, frame_index: 0 }
    }

    /// The number of frame slots.
    pub fn frame_count(&self) -> (r: usize)
        ensures
            r == self@.frames.len(),
    {
        self.frames.len()
    }

    /// The number of present semaphores: one per image of the chain they
    /// were made for.
    pub fn swapchain_image_count(&self) -> (r: usize)
        ensures
            r == self@.present_semaphores.len(),
    {
        self.swapchain_image_present_semaphores.len()
    }

    /// The slot at `index`.
    pub fn frame_sync(&self, index: usize) -> (r: FrameSync)
        requires
            index < self@.frames.len(),
        ensures
            r == self@.frames[index as int],
    {
        self.frames[index]
    }

    /// The slot that [Self::start_frame] uses next, with its index.
    ///
    /// Before starting a frame the caller waits on the slot's
    /// `graphics_commands_complete` fence (that wait bounds how far the CPU
    /// runs ahead of the GPU), then acquires an image that signals the slot's
    /// `swapchain_image_acquired` semaphore.
    pub fn next_frame_sync(&self) -> (r: (usize, FrameSync))
        requires
            self@.wf(),
        ensures
            r.0 == self@.next_index(),
            r.1 == self@.frames[self@.next_index() as int],
    {
        assert(self.frame_index < self.frames.len());
        let index = (self.frame_index + 1) % self.frames.len();
        (index, self.frames[index])
    }

    /// Starts the next frame, given how the chain answered the acquisition
    /// of an image for it.
    ///
    /// When an image was acquired the next slot becomes `Assembling` and the
    /// frame is returned; the caller then resets the slot's fence and command
    /// pool and begins its command buffer. When the chain needs a rebuild
    /// nothing changes, so a later retry finds the same slot untouched.
    pub fn start_frame(&mut self, swapchain: &Swapchain, status: AcquireImageStatus) -> (r:
        FrameStatus)
        requires
            old(self)@.wf(),
            swapchain.wf(),
            status is ImageAcquired ==> (status->ImageAcquired_0 as int) < swapchain.images_spec().len(),
        ensures
            final(self)@.wf(),
            final(self)@ == old(self)@.after_acquire(status),
            status is SwapchainNeedsRebuild <==> r is SwapchainNeedsRebuild,
            r is FrameStarted ==> ({
                let f = r->FrameStarted_0@;
                let i = old(self)@.next_index();
                let image = status->ImageAcquired_0;
                &&& f.frame_index == i
                &&& f.command_buffer == old(self)@.frames[i as int].resources.command_buffer
                &&& f.swapchain_image_index == image
                &&& f.swapchain_image == swapchain.images_spec()[image as int]
                &&& f.swapchain_image_view == swapchain.image_views_spec()[image as int]
            }),
    {
        assert(self.frame_index < self.frames.len());
        let index = (self.frame_index + 1) % self.frames.len();
        let image_index = match status {
            AcquireImageStatus::ImageAcquired(image_index) => image_index,
            AcquireImageStatus::SwapchainNeedsRebuild => {
                return FrameStatus::SwapchainNeedsRebuild;
            },
        };
        let resources = self.frames[index].resources;
        self.frames.set(index, FrameSync { status: FrameSyncStatus::Assembling, resources });
        self.frame_index = index;
        assert(self@.frames =~= old(self)@.started().frames);
        FrameStatus::FrameStarted(
            Frame {
                command_buffer: resources.command_buffer,
                swapchain_image_index: image_index,
                frame_index: index,
                swapchain_image: swapchain.images()[image_index as usize],
                swapchain_image_view: swapchain.image_views()[image_index as usize],
            },
        )
    }

    /// The objects that `frame`'s command buffer is submitted with: it waits
    /// on the slot's acquire semaphore and signals the slot's fence and the
    /// present semaphore of the frame's image.
    pub fn submission(&self, frame: &Frame) -> (r: Submission)
        requires
            frame@.frame_index < self@.frames.len(),
            (frame@.swapchain_image_index as int) < self@.present_semaphores.len(),
        ensures
            r == (Submission {
                command_buffer: self@.frames[frame@.frame_index as int].resources.command_buffer,
                wait_semaphore: self@.frames[frame@.frame_index as int].resources.swapchain_image_acquired,
                signal_semaphore: self@.present_semaphores[frame@.swapchain_image_index as int],
                fence: self@.frames[frame@.frame_index as int].resources.graphics_commands_complete,
            }),
    {
        let resources = self.frames[frame.frame_index].resources;
        Submission {
            command_buffer: resources.command_buffer,
            wait_semaphore: resources.swapchain_image_acquired,
            signal_semaphore: self.swapchain_image_present_semaphores[frame.swapchain_image_index as usize],
            fence: resources.graphics_commands_complete,
        }
    }

    /// Takes back a frame whose [Self::submission] was queued: its slot
    /// becomes `Pending`, and the frame's image is to be presented once the
    /// image's present semaphore is signalled.
    pub fn present_frame(&mut self, frame: Frame) -> (r: Presentation)
        requires
            frame@.frame_index < old(self)@.frames.len(),
            (frame@.swapchain_image_index as int) < old(self)@.present_semaphores.len(),
        ensures
            final(self)@ == old(self)@.presented(frame@.frame_index),
            r == (Presentation {
                wait_semaphore: old(self)@.present_semaphores[frame@.swapchain_image_index as int],
                image_index: frame@.swapchain_image_index,
            }),
    {
        let resources = self.frames[frame.frame_index].resources;
        self.frames.set(frame.frame_index, FrameSync { status: FrameSyncStatus::Pending, resources });
        assert(self@.frames =~= old(self)@.presented(frame@.frame_index).frames);
        Presentation {
            wait_semaphore: self.swapchain_image_present_semaphores[frame.swapchain_image_index as usize],
            image_index: frame.swapchain_image_index,
        }
    }

    /// The fences to wait on for all submitted work to complete: those of the
    /// `Pending` slots. An `Assembling` slot has nothing submitted, and a wait
    /// on its fence would never end.
    pub fn pending_fences(&self) -> (r: Vec<u64>)
        ensures
            r@ == pending_fences_of(self@.frames),
    {
        let mut fences: Vec<u64> = Vec::new();
        let mut i: usize = 0;
        while i < self.frames.len()
            invariant
                i <= self.frames.len(),
                fences@ == pending_fences_of(self.frames@.subrange(0, i as int)),
            decreases self.frames.len() - i,
        {
            let frame_sync = self.frames[i];
            assert(self.frames@.subrange(0, i + 1).drop_last() =~= self.frames@.subrange(0, i as int));
            if frame_sync.status == FrameSyncStatus::Pending {
                fences.push(frame_sync.resources.graphics_commands_complete);
            }
            i = i + 1;
        }
        assert(self.frames@.subrange(0, self.frames.len() as int) =~= self.frames@);
        fences
    }

    /// Replaces the present semaphores (one per image of a rebuilt chain) and
    /// every slot's acquire semaphore, and returns the retired ones: the old
    /// present semaphores, then the old acquire semaphores in slot order.
    ///
    /// The caller waits for all frames to complete and for the device to be
    /// idle first, and destroys the retired semaphores afterwards.
    pub fn rebuild_swapchain_semaphores(
        &mut self,
        swapchain_image_present_semaphores: Vec<u64>,
        swapchain_image_acquired: Vec<u64>,
    ) -> (r: Vec<u64>)
        requires
            old(self)@.wf(),
            swapchain_image_acquired.len() == old(self)@.frames.len(),
        ensures
            final(self)@.wf(),
            final(self)@.present_semaphores == swapchain_image_present_semaphores@,
            final(self)@.frame_index == old(self)@.frame_index,
            final(self)@.frames.len() == old(self)@.frames.len(),
            forall|i: int|
                0 <= i < old(self)@.frames.len() ==> final(self)@.frames[i] == (FrameSync {
                    status: old(self)@.frames[i].status,
                    resources: FrameResources {
                        swapchain_image_acquired: swapchain_image_acquired@[i],
                        ..old(self)@.frames[i].resources
                    },
                }),
            r@ == old(self)@.present_semaphores + acquire_semaphores_of(old(self)@.frames),
    {
        let mut retired = self.swapchain_image_present_semaphores.clone();
        self.swapchain_image_present_semaphores = swapchain_image_present_semaphores;
        let ghost retired_present = retired@;
        let mut i: usize = 0;
        while i < self.frames.len()
            invariant
                i <= self.frames.len(),
                self.frames.len() == old(self).frames.len(),
                swapchain_image_acquired.len() == old(self).frames.len(),
                retired_present == old(self)@.present_semaphores,
                self.swapchain_image_present_semaphores@ == swapchain_image_present_semaphores@,
                self.frame_index == old(self).frame_index,
                retired@ == retired_present + acquire_semaphores_of(old(self)@.frames.subrange(0, i as int)),
                forall|j: int|
                    0 <= j < i ==> self.frames@[j] == (FrameSync {
                        status: old(self)@.frames[j].status,
                        resources: FrameResources {
                            swapchain_image_acquired: swapchain_image_acquired@[j],
                            ..old(self)@.frames[j].resources
                        },
                    }),
                forall|j: int| i <= j < self.frames.len() ==> self.frames@[j] == old(self)@.frames[j],
            decreases self.frames.len() - i,
        {
            let frame_sync = self.frames[i];
            retired.push(frame_sync.resources.swapchain_image_acquired);
            let resources = FrameResources {
                swapchain_image_acquired: swapchain_image_acquired[i],
                ..frame_sync.resources
            };
            self.frames.set(i, FrameSync { status: frame_sync.status, resources });
            assert(acquire_semaphores_of(old(self)@.frames.subrange(0, i + 1)) =~= acquire_semaphores_of(
                old(self)@.frames.subrange(0, i as int),
            ).push(old(self)@.frames[i as int].resources.swapchain_image_acquired));
            i = i + 1;
        }
        assert(old(self)@.frames.subrange(0, old(self)@.frames.len() as int) =~= old(self)@.frames);
        retired
    }
}

/// The state after `k` frames were started, one after another, with none
/// presented.
pub open spec fn started_n(v: FramesInFlightView, k: nat) -> FramesInFlightView
    decreases k,
{
    if k == 0 {
        v
    } else {
        started_n(v, (k - 1) as nat).started()
    }
}

/// The state after `k` frames were started and each presented before the
/// next one.
pub open spec fn cycled_n(v: FramesInFlightView, k: nat) -> FramesInFlightView
    decreases k,
{
    if k == 0 {
        v
    } else {
        let u = cycled_n(v, (k - 1) as nat);
        u.started().presented(u.next_index())
    }
}

proof fn lemma_mod_step(x: int, m: int)
    requires
        x >= 0,
        m >= 1,
    ensures
        ((x % m) + 1) % m == (x + 1) % m,
{
    lemma_add_mod_noop(x, 1, m);
    if m >= 2 {
        lemma_small_mod(1, m as nat);
    } else {
        assert(x % m == 0 && (x + 1) % m == 0 && ((x % m) + 1) % m == 0);
    }
}

proof fn lemma_started_n(v: FramesInFlightView, k: nat)
    requires
        v.wf(),
    ensures
        started_n(v, k).wf(),
        started_n(v, k).frames.len() == v.frames.len(),
        started_n(v, k).present_semaphores == v.present_semaphores,
        started_n(v, k).frame_index == (v.frame_index + k) % v.frames.len(),
        forall|i: int|
            0 <= i < v.frames.len() ==> #[trigger] started_n(v, k).frames[i].resources
                == v.frames[i].resources,
        k >= 1 ==> started_n(v, k).frames[v.next_index() as int].status
            == FrameSyncStatus::Assembling,
    decreases k,
{
    lemma_small_mod(v.frame_index, v.frames.len());
    if k > 0 {
        let u = started_n(v, (k - 1) as nat);
        lemma_started_n(v, (k - 1) as nat);
        lemma_mod_step(v.frame_index + k - 1, v.frames.len() as int);
        if k == 1 {
            assert(u == v);
        }
    }
}

proof fn lemma_cycled_n(v: FramesInFlightView, k: nat)
    requires
        v.wf(),
    ensures
        cycled_n(v, k).wf(),
        cycled_n(v, k).frames.len() == v.frames.len(),
        cycled_n(v, k).frame_index == (v.frame_index + k) % v.frames.len(),
    decreases k,
{
    lemma_small_mod(v.frame_index, v.frames.len());
    if k > 0 {
        lemma_cycled_n(v, (k - 1) as nat);
        lemma_mod_step(v.frame_index + k - 1, v.frames.len() as int);
    }
}

/// Backpressure: with N >= 2 slots, once N frames were started and none of
/// them presented, the next start targets the slot of the oldest of them.
/// That slot is still `Assembling`, and its fence is the one reset when the
/// oldest frame started, so the wait on it ends only after that frame was
/// submitted and completed. The N frames used N distinct slots.
pub proof fn lemma_start_without_present_reuses_oldest_slot(v: FramesInFlightView)
    requires
        v.wf(),
        v.frames.len() >= 2,
    ensures
        ({
            let w = started_n(v, v.frames.len());
            &&& w.next_index() == started_n(v, 1).frame_index
            &&& w.frames[w.next_index() as int].status == FrameSyncStatus::Assembling
            &&& w.frames[w.next_index() as int].resources == v.frames[v.next_index() as int].resources
        }),
        forall|j: nat, k: nat|
            1 <= j < k <= v.frames.len() ==> #[trigger] started_n(v, j).frame_index
                != #[trigger] started_n(v, k).frame_index,
{
    let n = v.frames.len();
    let w = started_n(v, n);
    lemma_started_n(v, n);
    lemma_started_n(v, 1);
    lemma_small_mod(v.frame_index, n);
    assert(v.next_index() == started_n(v, 1).frame_index);
    assert(w.frame_index == v.frame_index) by {
        vstd::arithmetic::div_mod::lemma_mod_add_multiples_vanish(v.frame_index as int, n as int);
    }
    assert forall|j: nat, k: nat|
        1 <= j < k <= n implies #[trigger] started_n(v, j).frame_index
            != #[trigger] started_n(v, k).frame_index by {
        lemma_started_n(v, j);
        lemma_started_n(v, k);
        let a = (v.frame_index + j) as int;
        let b = (v.frame_index + k) as int;
        if a < n {
            lemma_small_mod(a as nat, n);
        } else {
            vstd::arithmetic::div_mod::lemma_mod_sub_multiples_vanish(a, n as int);
            lemma_small_mod((a - n) as nat, n);
        }
        if b < n {
            lemma_small_mod(b as nat, n);
        } else {
            vstd::arithmetic::div_mod::lemma_mod_sub_multiples_vanish(b, n as int);
            lemma_small_mod((b - n) as nat, n);
        }
    }
}

/// Frames started and presented in turn, with no rebuild, take the slots in
/// cyclic order: the k-th frame uses slot `(i + k) mod N` for a pipeline last
/// at slot `i`, so each frame's slot follows the previous one's.
pub proof fn lemma_slots_cycle_in_order(v: FramesInFlightView, k: nat)
    requires
        v.wf(),
    ensures
        cycled_n(v, k).frame_index == (v.frame_index + k) % v.frames.len(),
        cycled_n(v, k + 1).frame_index == (cycled_n(v, k).frame_index + 1) % v.frames.len(),
{
    lemma_cycled_n(v, k);
    lemma_cycled_n(v, k + 1);
    lemma_mod_step((v.frame_index + k) as int, v.frames.len() as int);
}

/// A suboptimal acquisition and an out-of-date error both ask for a rebuild,
/// and starting a frame on either leaves every slot, its fence and its
/// command pool as they were.
pub proof fn lemma_stale_surface_leaves_slots_untouched(
    v: FramesInFlightView,
    image_index: u32,
)
    requires
        v.wf(),
    ensures
        acquire_outcome(Ok((image_index, true))) == Ok::<AcquireImageStatus, crate::swapchain::SwapchainError>(
            AcquireImageStatus::SwapchainNeedsRebuild,
        ),
        acquire_outcome(Err(ERROR_OUT_OF_DATE)) == Ok::<AcquireImageStatus, crate::swapchain::SwapchainError>(
            AcquireImageStatus::SwapchainNeedsRebuild,
        ),
        v.after_acquire(AcquireImageStatus::SwapchainNeedsRebuild) == v,
{
}

} // verus!
