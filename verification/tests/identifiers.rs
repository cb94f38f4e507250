use create_thread_tool::entity::render_decimal;
use create_thread_tool::EntityId;

#[test]
fn single_digits() {
    let expected = ["0", "1", "2", "3", "4", "5", "6", "7", "8", "9"];
    for (value, text) in expected.iter().enumerate() {
        assert_eq!(render_decimal(value as u64), *text);
    }
}

#[test]
fn zero_is_one_digit() {
    assert_eq!(EntityId(0).to_string(), "0");
}

#[test]
fn ten_and_its_neighbours() {
    assert_eq!(render_decimal(9), "9");
    assert_eq!(render_decimal(10), "10");
    assert_eq!(render_decimal(11), "11");
    assert_eq!(render_decimal(99), "99");
    assert_eq!(render_decimal(100), "100");
    assert_eq!(render_decimal(101), "101");
}

#[test]
fn digits_come_most_significant_first() {
    assert_eq!(EntityId(1234567890).to_string(), "1234567890");
    assert_eq!(EntityId(9876543210).to_string(), "9876543210");
}

#[test]
fn zeros_inside_and_at_the_end_are_kept() {
    assert_eq!(EntityId(1000).to_string(), "1000");
    assert_eq!(EntityId(100200300).to_string(), "100200300");
}

#[test]
fn largest_identifier() {
    assert_eq!(EntityId(u64::MAX).to_string(), "18446744073709551615");
}

#[test]
fn identifier_with_a_generation_in_its_upper_half() {
    assert_eq!(EntityId((1u64 << 32) | 5).to_string(), "4294967301");
}

#[test]
fn rendering_agrees_with_the_standard_library() {
    let mut value: u64 = 1;
    for _ in 0..64 {
        assert_eq!(render_decimal(value), format!("{}", value));
        assert_eq!(render_decimal(value - 1), format!("{}", value - 1));
        value = value.wrapping_mul(2);
        if value == 0 {
            break;
        }
    }
    for value in 0..2000u64 {
        assert_eq!(render_decimal(value), format!("{}", value));
    }
}

#[test]
fn identifier_reads_back_as_the_number() {
    for value in [0u64, 1, 9, 10, 99, 4294967296, u64::MAX] {
        let text = EntityId(value).to_string();
        assert_eq!(text.parse::<u64>().unwrap(), value);
    }
}

#[test]
fn identifier_is_never_empty_and_holds_digits_only() {
    for value in [0u64, 5, 10, 12345, u64::MAX] {
        let text = EntityId(value).to_string();
        assert!(!text.is_empty());
        assert!(text.chars().all(|c| c.is_ascii_digit()));
    }
}

#[test]
fn no_leading_zero_but_for_zero() {
    for value in [1u64, 10, 100, 1_000_000, u64::MAX] {
        assert!(!EntityId(value).to_string().starts_with('0'));
    }
    assert!(EntityId(0).to_string().starts_with('0'));
}

#[test]
fn different_entities_have_different_identifiers() {
    let ids = [0u64, 1, 10, 100, 101, 110, 1 << 32, (1 << 32) + 1, u64::MAX - 1, u64::MAX];
    for a in ids {
        for b in ids {
            if a != b {
                assert_ne!(EntityId(a).to_string(), EntityId(b).to_string());
            }
        }
    }
}

#[test]
fn as_u64_gives_the_number_back() {
    assert_eq!(EntityId(42).as_u64(), 42);
    assert_eq!(EntityId(u64::MAX).as_u64(), u64::MAX);
}
