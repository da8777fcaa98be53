use demo_vk::utility::{reallocation_size, round_to_power_of_two};

#[test]
fn utility_power_of_two_should_round_up() {
    assert_eq!(round_to_power_of_two(1), 1);
    assert_eq!(round_to_power_of_two(2), 2);
    assert_eq!(round_to_power_of_two(3), 4);
    assert_eq!(round_to_power_of_two(6), 8);
    assert_eq!(round_to_power_of_two(9), 16);
    assert_eq!(round_to_power_of_two(20), 32);
    assert_eq!(round_to_power_of_two(50), 64);
    assert_eq!(round_to_power_of_two(93), 128);
    assert_eq!(round_to_power_of_two(200), 256);
    assert_eq!(round_to_power_of_two(500), 512);
    assert_eq!(round_to_power_of_two(10_000), 16384);
}

#[test]
fn loader_power_of_two_should_round_up() {
    assert_eq!(round_to_power_of_two(1), 1);
    assert_eq!(round_to_power_of_two(2), 2);
    assert_eq!(round_to_power_of_two(3), 4);
    assert_eq!(round_to_power_of_two(6), 8);
    assert_eq!(round_to_power_of_two(9), 16);
    assert_eq!(round_to_power_of_two(20), 32);
    assert_eq!(round_to_power_of_two(50), 64);
    assert_eq!(round_to_power_of_two(93), 128);
    assert_eq!(round_to_power_of_two(200), 256);
    assert_eq!(round_to_power_of_two(500), 512);
    assert_eq!(round_to_power_of_two(10_000), 16384);
}

#[test]
fn power_of_two_keeps_powers_and_rounds_zero_to_one() {
    assert_eq!(round_to_power_of_two(0), 1);
    assert_eq!(round_to_power_of_two(1024), 1024);
    assert_eq!(round_to_power_of_two(1025), 2048);
    let top = 1usize << (usize::BITS - 1);
    assert_eq!(round_to_power_of_two(top), top);
    assert_eq!(round_to_power_of_two(top - 1), top);
}

#[test]
fn power_of_two_is_minimal_upper_bound() {
    for n in 0usize..5000 {
        let r = round_to_power_of_two(n);
        assert!(r >= n);
        assert!(r.is_power_of_two());
        assert!(r == 1 || r / 2 < n);
    }
}

#[test]
fn buffer_grows_only_when_too_small() {
    assert_eq!(reallocation_size(64, 64), None);
    assert_eq!(reallocation_size(64, 10), None);
    assert_eq!(reallocation_size(64, 65), Some(128));
    assert_eq!(reallocation_size(0, 1), Some(1));
    assert_eq!(reallocation_size(0, 0), None);
    assert_eq!(reallocation_size(100, 300), Some(512));
}
