use demo_vk::frames_in_flight::{FrameResources, FrameStatus, FrameSyncStatus, FramesInFlight};
use demo_vk::swapchain::{
    acquire_image_status, AcquireImageStatus, Extent2D, SurfaceFormat, Swapchain,
    ERROR_OUT_OF_DATE,
};
use std::collections::HashMap;

fn slot_resources(n: usize) -> Vec<FrameResources> {
    (0..n as u64)
        .map(|i| FrameResources {
            swapchain_image_acquired: 100 + i,
            graphics_commands_complete: 200 + i,
            command_pool: 300 + i,
            command_buffer: 400 + i,
        })
        .collect()
}

fn chain(images: usize) -> Swapchain {
    Swapchain::new(
        7,
        Extent2D { width: 640, height: 480 },
        SurfaceFormat { format: 50, color_space: 0 },
        (0..images as u64).map(|i| 1000 + i).collect(),
        (0..images as u64).map(|i| 2000 + i).collect(),
    )
}

/// Fences as a device keeps them: signalled or not. Created signalled.
struct MockFences {
    signalled: HashMap<u64, bool>,
}

impl MockFences {
    fn new(frames: &FramesInFlight) -> Self {
        let mut signalled = HashMap::new();
        for i in 0..frames.frame_count() {
            signalled.insert(frames.frame_sync(i).resources.graphics_commands_complete, true);
        }
        MockFences { signalled }
    }

    fn would_block(&self, fence: u64) -> bool {
        !self.signalled[&fence]
    }
}

/// One start attempt as a caller makes it: wait on the slot's fence, acquire
/// (the chain answers `result`), start, and reset the fence on success.
fn start(
    frames: &mut FramesInFlight,
    fences: &mut MockFences,
    swapchain: &Swapchain,
    result: Result<(u32, bool), i32>,
) -> FrameStatus {
    let (_, sync) = frames.next_frame_sync();
    assert!(!fences.would_block(sync.resources.graphics_commands_complete));
    let status = acquire_image_status(result).unwrap();
    let started = frames.start_frame(swapchain, status);
    if let FrameStatus::FrameStarted(_) = started {
        fences.signalled.insert(sync.resources.graphics_commands_complete, false);
    }
    started
}

/// Submits and presents a started frame; the GPU finishes it at once.
fn finish(frames: &mut FramesInFlight, fences: &mut MockFences, status: FrameStatus) -> usize {
    let frame = match status {
        FrameStatus::FrameStarted(frame) => frame,
        FrameStatus::SwapchainNeedsRebuild => panic!("expected a frame"),
    };
    let index = frame.frame_index();
    let submission = frames.submission(&frame);
    frames.present_frame(frame);
    fences.signalled.insert(submission.fence, true);
    index
}

#[test]
fn three_slots_two_images_cycle_without_rebuild() {
    let swapchain = chain(2);
    let mut frames = FramesInFlight::new(vec![10, 11], slot_resources(3));
    let mut fences = MockFences::new(&frames);
    let mut observed = vec![];
    for cycle in 0..10u32 {
        let status = start(&mut frames, &mut fences, &swapchain, Ok((cycle % 2, false)));
        assert_ne!(status, FrameStatus::SwapchainNeedsRebuild);
        observed.push(finish(&mut frames, &mut fences, status));
    }
    assert_eq!(observed, vec![1, 2, 0, 1, 2, 0, 1, 2, 0, 1]);
}

#[test]
fn rebuild_on_fifth_acquire_resumes_the_cycle() {
    let mut swapchain = chain(2);
    let mut frames = FramesInFlight::new(vec![10, 11], slot_resources(3));
    let mut fences = MockFences::new(&frames);
    let mut observed = vec![];
    for call in 1..=8 {
        let result = if call == 5 { Err(ERROR_OUT_OF_DATE) } else { Ok((1, false)) };
        let before = frames.next_frame_sync();
        let fence_before = fences.signalled[&before.1.resources.graphics_commands_complete];
        let status = start(&mut frames, &mut fences, &swapchain, result);
        if call == 5 {
            assert_eq!(status, FrameStatus::SwapchainNeedsRebuild);
            // the targeted slot, its fence and its command pool are untouched
            assert_eq!(frames.next_frame_sync(), before);
            assert_eq!(before.1.status, FrameSyncStatus::Pending);
            assert_eq!(
                fences.signalled[&before.1.resources.graphics_commands_complete],
                fence_before
            );
            // the caller waits for all frames, then rebuilds the chain
            assert!(frames
                .pending_fences()
                .iter()
                .all(|fence| !fences.would_block(*fence)));
            swapchain = chain(3);
            let retired =
                frames.rebuild_swapchain_semaphores(vec![20, 21, 22], vec![500, 501, 502]);
            assert_eq!(retired, vec![10, 11, 100, 101, 102]);
        } else {
            observed.push(finish(&mut frames, &mut fences, status));
        }
    }
    assert_eq!(observed, vec![1, 2, 0, 1, 2, 0, 1]);
}

#[test]
fn starting_more_frames_than_slots_waits_on_the_oldest() {
    let swapchain = chain(3);
    let mut frames = FramesInFlight::new(vec![10, 11, 12], slot_resources(3));
    let mut fences = MockFences::new(&frames);
    let mut started = vec![];
    for image in 0..3u32 {
        match start(&mut frames, &mut fences, &swapchain, Ok((image, false))) {
            FrameStatus::FrameStarted(frame) => started.push(frame),
            FrameStatus::SwapchainNeedsRebuild => panic!("expected a frame"),
        }
    }
    // the fourth start targets the slot of the first frame, whose fence is
    // reset and not signalled until that frame is submitted and completes
    let (index, sync) = frames.next_frame_sync();
    assert_eq!(index, started[0].frame_index());
    assert_eq!(sync.status, FrameSyncStatus::Assembling);
    assert!(fences.would_block(sync.resources.graphics_commands_complete));
    // nothing submitted: no fence to wait on for all frames
    assert!(frames.pending_fences().is_empty());
    // once the oldest frame is presented and done, the wait ends
    let oldest = started.remove(0);
    finish(&mut frames, &mut fences, FrameStatus::FrameStarted(oldest));
    assert!(!fences.would_block(sync.resources.graphics_commands_complete));
    assert_eq!(frames.pending_fences(), vec![sync.resources.graphics_commands_complete]);
}

#[test]
fn suboptimal_and_out_of_date_leave_the_slot_untouched() {
    let swapchain = chain(2);
    for result in [Ok((1, true)), Err(ERROR_OUT_OF_DATE)] {
        let mut frames = FramesInFlight::new(vec![10, 11], slot_resources(2));
        let before = frames.next_frame_sync();
        let status = acquire_image_status(result).unwrap();
        assert_eq!(status, AcquireImageStatus::SwapchainNeedsRebuild);
        assert_eq!(frames.start_frame(&swapchain, status), FrameStatus::SwapchainNeedsRebuild);
        assert_eq!(frames.next_frame_sync(), before);
        assert_eq!(before.0, 1);
        assert_eq!(frames.frame_sync(1), before.1);
        assert_eq!(frames.frame_sync(0).status, FrameSyncStatus::Pending);
    }
}

#[test]
fn started_frame_carries_slot_and_image_handles() {
    let swapchain = chain(3);
    let mut frames = FramesInFlight::new(vec![10, 11, 12], slot_resources(2));
    let frame = match frames.start_frame(&swapchain, AcquireImageStatus::ImageAcquired(2)) {
        FrameStatus::FrameStarted(frame) => frame,
        FrameStatus::SwapchainNeedsRebuild => panic!("expected a frame"),
    };
    assert_eq!(frame.frame_index(), 1);
    assert_eq!(frame.command_buffer(), 401);
    assert_eq!(frame.swapchain_image_index(), 2);
    assert_eq!(frame.swapchain_image(), 1002);
    assert_eq!(frame.swapchain_image_view(), 2002);
    assert_eq!(frames.frame_sync(1).status, FrameSyncStatus::Assembling);
    let submission = frames.submission(&frame);
    assert_eq!(submission.command_buffer, 401);
    assert_eq!(submission.wait_semaphore, 101);
    assert_eq!(submission.signal_semaphore, 12);
    assert_eq!(submission.fence, 201);
    let presentation = frames.present_frame(frame);
    assert_eq!(presentation.wait_semaphore, 12);
    assert_eq!(presentation.image_index, 2);
    assert_eq!(frames.frame_sync(1).status, FrameSyncStatus::Pending);
    assert_eq!(frames.pending_fences(), vec![200, 201]);
}
