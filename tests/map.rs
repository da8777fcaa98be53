
#[test]
fn map_sends_range_ends_to_range_ends() {
    assert_eq!(demo_vk::map(0, 0..10, 0..100), 0);
    assert_eq!(demo_vk::map(10, 0..10, 0..100), 100);
    assert_eq!(demo_vk::map(5, 0..10, 0..100), 50);
}

#[test]
fn map_handles_reversed_and_offset_ranges() {
    assert_eq!(demo_vk::map(2, 0..4, 8..0), 4);
    assert_eq!(demo_vk::map(15, 10..20, 100..200), 150);
    assert_eq!(demo_vk::map(-3, -5..5, 0..20), 4);
}
