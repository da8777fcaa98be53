use demo_vk::swapchain::settings::{
    select_image_count, select_image_extent, select_image_format, select_present_mode,
    swapchain_settings, SettingsError, SurfaceCapabilities, SwapchainSettings,
    PRESENT_MODE_FIFO, PRESENT_MODE_IMMEDIATE, PRESENT_MODE_MAILBOX,
};
use demo_vk::swapchain::{
    acquire_image_status, present_image_status, AcquireImageStatus, Extent2D,
    PresentImageStatus, SurfaceFormat, SwapchainError, ERROR_OUT_OF_DATE,
};

fn capabilities(min: u32, max: u32, current: Extent2D) -> SurfaceCapabilities {
    SurfaceCapabilities {
        min_image_count: min,
        max_image_count: max,
        current_extent: current,
        min_image_extent: Extent2D { width: 16, height: 16 },
        max_image_extent: Extent2D { width: 4096, height: 2048 },
    }
}

#[test]
fn acquire_folds_suboptimal_and_out_of_date() {
    assert_eq!(acquire_image_status(Ok((3, false))), Ok(AcquireImageStatus::ImageAcquired(3)));
    assert_eq!(acquire_image_status(Ok((3, true))), Ok(AcquireImageStatus::SwapchainNeedsRebuild));
    assert_eq!(
        acquire_image_status(Err(ERROR_OUT_OF_DATE)),
        Ok(AcquireImageStatus::SwapchainNeedsRebuild)
    );
    // device lost is fatal
    assert_eq!(acquire_image_status(Err(-4)), Err(SwapchainError::AcquireFailed(-4)));
}

#[test]
fn present_folds_suboptimal_and_out_of_date() {
    assert_eq!(present_image_status(Ok(false)), Ok(PresentImageStatus::Queued));
    assert_eq!(present_image_status(Ok(true)), Ok(PresentImageStatus::SwapchainNeedsRebuild));
    assert_eq!(
        present_image_status(Err(ERROR_OUT_OF_DATE)),
        Ok(PresentImageStatus::SwapchainNeedsRebuild)
    );
    assert_eq!(present_image_status(Err(-2)), Err(SwapchainError::PresentFailed(-2)));
}

#[test]
fn image_format_prefers_bgra_srgb_then_first() {
    let other = SurfaceFormat { format: 44, color_space: 0 };
    let preferred = SurfaceFormat { format: 50, color_space: 0 };
    let wrong_space = SurfaceFormat { format: 50, color_space: 1000104001 };
    assert_eq!(select_image_format(&vec![other, wrong_space, preferred]), Ok(preferred));
    assert_eq!(select_image_format(&vec![wrong_space, other]), Ok(wrong_space));
    assert_eq!(select_image_format(&vec![]), Err(SettingsError::NoSurfaceFormat));
}

#[test]
fn present_mode_follows_fixed_preference() {
    assert_eq!(select_present_mode(&vec![PRESENT_MODE_FIFO, PRESENT_MODE_IMMEDIATE, PRESENT_MODE_MAILBOX]), PRESENT_MODE_MAILBOX);
    assert_eq!(select_present_mode(&vec![PRESENT_MODE_FIFO, PRESENT_MODE_IMMEDIATE]), PRESENT_MODE_IMMEDIATE);
    assert_eq!(select_present_mode(&vec![PRESENT_MODE_FIFO]), PRESENT_MODE_FIFO);
    assert_eq!(select_present_mode(&vec![]), PRESENT_MODE_FIFO);
}

#[test]
fn image_count_is_clamped_to_device_bounds() {
    let current = Extent2D { width: 800, height: 600 };
    assert_eq!(select_image_count(&capabilities(2, 8, current)), 4);
    assert_eq!(select_image_count(&capabilities(2, 3, current)), 3);
    assert_eq!(select_image_count(&capabilities(3, 0, current)), 5);
}

#[test]
fn image_extent_uses_current_extent_or_clamps() {
    let defined = capabilities(2, 0, Extent2D { width: 800, height: 600 });
    assert_eq!(select_image_extent(&defined, (1024, 768)), Extent2D { width: 800, height: 600 });
    let open = capabilities(2, 0, Extent2D { width: u32::MAX, height: u32::MAX });
    assert_eq!(select_image_extent(&open, (1024, 768)), Extent2D { width: 1024, height: 768 });
    assert_eq!(select_image_extent(&open, (8000, 4)), Extent2D { width: 4096, height: 16 });
}

#[test]
fn settings_combine_every_choice() {
    let caps = capabilities(2, 3, Extent2D { width: u32::MAX, height: u32::MAX });
    let formats = vec![SurfaceFormat { format: 44, color_space: 0 }];
    let settings = swapchain_settings(&caps, &formats, &vec![PRESENT_MODE_IMMEDIATE], (100, 50));
    assert_eq!(
        settings,
        Ok(SwapchainSettings {
            min_image_count: 3,
            format: formats[0],
            extent: Extent2D { width: 100, height: 50 },
            present_mode: PRESENT_MODE_IMMEDIATE,
        })
    );
    assert_eq!(
        swapchain_settings(&caps, &vec![], &vec![], (100, 50)),
        Err(SettingsError::NoSurfaceFormat)
    );
}
