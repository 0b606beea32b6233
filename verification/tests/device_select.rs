use parlab::device_select::{
    frame_outcome, plan_swapchain, FrameOutcome, SwapchainPlan,
    find_memory_type_index, is_fatal_message, layers_available, pick_physical_device,
    pick_queue_family, swapchain_extent, swapchain_supported,
};

#[test]
fn first_gpu_is_picked() {
    // CPU, virtual GPU, integrated, discrete.
    assert_eq!(pick_physical_device(&[4, 3, 1, 2]), Some(2));
    assert_eq!(pick_physical_device(&[2, 1]), Some(0));
}

#[test]
fn no_gpu_gives_none() {
    assert_eq!(pick_physical_device(&[0, 3, 4]), None);
    assert_eq!(pick_physical_device(&[]), None);
}

#[test]
fn queue_family_needs_present_graphics_and_compute() {
    let families = [(true, 0x1), (false, 0x3), (true, 0x2), (true, 0x7), (true, 0x3)];
    assert_eq!(pick_queue_family(&families), 3);
}

#[test]
fn memory_type_needs_allowed_bit_and_flags() {
    // Types 0..3; required flags 0x6.
    let flags = [0x6, 0x2, 0x7, 0xE];
    assert_eq!(find_memory_type_index(0b1110, &flags, 0x6), 2);
    assert_eq!(find_memory_type_index(0b1111, &flags, 0x6), 0);
    assert_eq!(find_memory_type_index(0b1000, &flags, 0x6), 3);
}

#[test]
fn extent_is_clamped() {
    assert_eq!(swapchain_extent(640, 480, (1, 1), (4096, 4096)), (640, 480));
    assert_eq!(swapchain_extent(5000, 0, (1, 1), (4096, 4096)), (4096, 1));
    // A negative size reads as a huge unsigned number.
    assert_eq!(swapchain_extent(-1, 300, (1, 1), (800, 600)), (800, 300));
}

#[test]
fn swapchain_support_checks() {
    assert!(swapchain_supported(&[(50, 0), (44, 0)], &[0, 1], 0));
    assert!(!swapchain_supported(&[(44, 1)], &[1], 0));
    assert!(!swapchain_supported(&[(44, 0)], &[0, 2, 3], 0));
    assert!(!swapchain_supported(&[(44, 0)], &[1], 8));
}

#[test]
fn warnings_and_errors_are_fatal() {
    assert!(is_fatal_message(0x100));
    assert!(is_fatal_message(0x1000));
    assert!(is_fatal_message(0x1101));
    assert!(!is_fatal_message(0x1));
    assert!(!is_fatal_message(0x10));
}

#[test]
fn layers_must_all_be_offered() {
    let offered = vec![b"VK_LAYER_KHRONOS_validation".to_vec(), b"VK_LAYER_MESA".to_vec()];
    assert!(layers_available(&vec![b"VK_LAYER_KHRONOS_validation".to_vec()], &offered));
    assert!(!layers_available(&vec![b"VK_LAYER_KHRONOS".to_vec()], &offered));
    assert!(layers_available(&vec![], &vec![]));
}

#[test]
fn out_of_date_or_suboptimal_swapchains_are_rebuilt() {
    assert_eq!(frame_outcome(-1000001004), FrameOutcome::RecreateSwapchain);
    assert_eq!(frame_outcome(1000001003), FrameOutcome::RecreateSwapchain);
}

#[test]
fn success_goes_on_and_other_results_fail() {
    assert_eq!(frame_outcome(0), FrameOutcome::Proceed);
    assert_eq!(frame_outcome(1), FrameOutcome::Fail);
    assert_eq!(frame_outcome(-4), FrameOutcome::Fail);
    assert_eq!(frame_outcome(-1000001003), FrameOutcome::Fail);
}

#[test]
fn swapchain_plan_for_a_first_and_a_later_swapchain() {
    assert_eq!(
        plan_swapchain(800, 600, (1, 1), (4096, 4096), 2, 0),
        SwapchainPlan { width: 800, height: 600, min_image_count: 3, destroy_old: false }
    );
    assert_eq!(
        plan_swapchain(5000, -1, (16, 16), (4096, 2048), 1, 0x5555_0000),
        SwapchainPlan { width: 4096, height: 2048, min_image_count: 2, destroy_old: true }
    );
}
