use rust_miner::rate::{format_hashrate, HashRate};

#[test]
fn rate_below_a_thousand_is_shown_in_hashes() {
    assert_eq!(format_hashrate(HashRate::per_second(999)), "999.00 H/s");
}

#[test]
fn rate_of_a_thousand_is_shown_in_kilohashes() {
    assert_eq!(format_hashrate(HashRate::per_second(1000)), "1.00 kH/s");
}

#[test]
fn rate_of_a_million_is_shown_in_megahashes() {
    assert_eq!(format_hashrate(HashRate::per_second(1_000_000)), "1.00 MH/s");
}

#[test]
fn rate_of_a_billion_is_shown_in_gigahashes() {
    assert_eq!(format_hashrate(HashRate::per_second(1_000_000_000)), "1.00 GH/s");
}

#[test]
fn rate_just_below_a_threshold_keeps_the_smaller_unit() {
    assert_eq!(format_hashrate(HashRate::per_second(999_999)), "1000.00 kH/s");
    assert_eq!(format_hashrate(HashRate::per_second(999_999_999)), "1000.00 MH/s");
    assert_eq!(format_hashrate(HashRate { hashes: 999_994, micros: 1_000_000_000 }), "999.99 H/s");
}

#[test]
fn rate_of_zero_is_shown_in_hashes() {
    assert_eq!(format_hashrate(HashRate::per_second(0)), "0.00 H/s");
}

#[test]
fn rate_is_a_million_times_hashes_over_micros() {
    // 42 hashes in 2000 microseconds: 21000 per second.
    let rate = HashRate { hashes: 42, micros: 2000 };
    assert_eq!(rate.to_plain_string(), "21000.00");
    assert_eq!(format_hashrate(rate), "21.00 kH/s");
    // 1 hash in 3 microseconds: 333333.33.. per second.
    let third = HashRate { hashes: 1, micros: 3 };
    assert_eq!(third.to_plain_string(), "333333.33");
    assert_eq!(format_hashrate(third), "333.33 kH/s");
    // 2 hashes in 3 microseconds: 666666.66.. per second, rounded up.
    let two_thirds = HashRate { hashes: 2, micros: 3 };
    assert_eq!(two_thirds.to_plain_string(), "666666.67");
}

#[test]
fn rate_rounds_a_tie_to_the_even_neighbour() {
    // 0.125 and 0.375 hashes per second.
    assert_eq!(HashRate { hashes: 1, micros: 8_000_000 }.to_plain_string(), "0.12");
    assert_eq!(HashRate { hashes: 3, micros: 8_000_000 }.to_plain_string(), "0.38");
    assert_eq!(format_hashrate(HashRate { hashes: 1_125, micros: 1_000_000 }), "1.12 kH/s");
    assert_eq!(format_hashrate(HashRate { hashes: 1_375, micros: 1_000_000 }), "1.38 kH/s");
    assert_eq!(format_hashrate(HashRate { hashes: 1_126, micros: 1_000_000 }), "1.13 kH/s");
    assert_eq!(format_hashrate(HashRate { hashes: 1_124, micros: 1_000_000 }), "1.12 kH/s");
}

#[test]
fn rate_without_time_is_not_a_number_or_infinite() {
    assert_eq!(HashRate { hashes: 0, micros: 0 }.to_plain_string(), "NaN");
    assert_eq!(HashRate { hashes: 5, micros: 0 }.to_plain_string(), "inf");
    assert_eq!(format_hashrate(HashRate { hashes: 0, micros: 0 }), "NaN H/s");
    assert_eq!(format_hashrate(HashRate { hashes: 5, micros: 0 }), "inf GH/s");
}

#[test]
fn rate_survives_the_largest_values() {
    let slow = HashRate { hashes: u64::MAX, micros: u128::MAX };
    assert_eq!(slow.to_plain_string(), "0.00");
    assert_eq!(format_hashrate(slow), "0.00 H/s");
    assert!(!slow.at_least(1));
    let fast = HashRate { hashes: u64::MAX, micros: 1 };
    assert_eq!(fast.to_plain_string(), "18446744073709551615000000.00");
    assert_eq!(format_hashrate(fast), "18446744073709551.62 GH/s");
    assert!(fast.at_least(u64::MAX));
}

#[test]
fn at_least_compares_with_hashes_per_second() {
    let rate = HashRate { hashes: 3, micros: 2000 };
    assert!(rate.at_least(1500));
    assert!(!rate.at_least(1501));
    assert!(rate.at_least(0));
}
