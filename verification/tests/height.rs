use state_consistency::height::{extract_rollup_height_from_error, is_decimal_digit, parse_leading_height};
use state_consistency::phrase::{chars_of, contains_phrase, find_phrase, stands_at};

#[test]
fn test_extract_rollup_height_from_error() {
    let error_msg = "TransactionReceipt { tx_hash: 0x7e55c8eb41c10c756d1a226bf104297e1e328317102485b0bc6b1498bc4283cc, body_to_save: \"<removed>\", events: [], receipt: Reverted(RevertedTxContents { gas_used: GasUnit[21287, 21287], reason: ModuleError(Block state assertion failed at rollup height 14. List of mismatches: [\"Rollup height mismatch. Transaction expected 13, but actual state is 14 (sanity check: saved state from begin block hook is 14)\"]) }) }";

    let height = extract_rollup_height_from_error(error_msg);
    assert_eq!(height, Some(14));
}

#[test]
fn test_extract_rollup_height_no_match() {
    let error_msg = "Some other error message";
    let height = extract_rollup_height_from_error(error_msg);
    assert_eq!(height, None);
}

#[test]
fn extracts_the_height_of_the_bare_sentence() {
    for height in [0u64, 1, 9, 10, 14, 99, 100, 12345, 1 << 40, u64::MAX - 1, u64::MAX] {
        let message = format!("Block state assertion failed at rollup height {}.", height);
        assert_eq!(extract_rollup_height_from_error(&message), Some(height));
    }
}

#[test]
fn extracts_the_height_whatever_surrounds_the_sentence() {
    let message = "reason: ModuleError(Block state assertion failed at rollup height 7. List of mismatches: [])";
    assert_eq!(extract_rollup_height_from_error(message), Some(7));
}

#[test]
fn height_may_end_the_message() {
    assert_eq!(
        extract_rollup_height_from_error("Block state assertion failed at rollup height 321"),
        Some(321)
    );
}

#[test]
fn height_ends_at_the_first_character_that_is_no_digit() {
    assert_eq!(
        extract_rollup_height_from_error("Block state assertion failed at rollup height 12a34."),
        Some(12)
    );
    assert_eq!(
        extract_rollup_height_from_error("Block state assertion failed at rollup height 5 6"),
        Some(5)
    );
}

#[test]
fn leading_zeros_count_for_nothing() {
    assert_eq!(
        extract_rollup_height_from_error("Block state assertion failed at rollup height 00042."),
        Some(42)
    );
}

#[test]
fn no_height_without_digits() {
    assert_eq!(
        extract_rollup_height_from_error("Block state assertion failed at rollup height ."),
        None
    );
    assert_eq!(
        extract_rollup_height_from_error("Block state assertion failed at rollup height "),
        None
    );
    assert_eq!(
        extract_rollup_height_from_error("Block state assertion failed at rollup height -3."),
        None
    );
    assert_eq!(
        extract_rollup_height_from_error("Block state assertion failed at rollup height +3."),
        None
    );
}

#[test]
fn no_height_beyond_u64() {
    assert_eq!(
        extract_rollup_height_from_error(
            "Block state assertion failed at rollup height 18446744073709551615."
        ),
        Some(u64::MAX)
    );
    assert_eq!(
        extract_rollup_height_from_error(
            "Block state assertion failed at rollup height 18446744073709551616."
        ),
        None
    );
    assert_eq!(
        extract_rollup_height_from_error(
            "Block state assertion failed at rollup height 99999999999999999999999999."
        ),
        None
    );
}

#[test]
fn the_leftmost_marker_decides() {
    let two = "Block state assertion failed at rollup height 3. Block state assertion failed at rollup height 8.";
    assert_eq!(extract_rollup_height_from_error(two), Some(3));
    let first_without_digits = "Block state assertion failed at rollup height x Block state assertion failed at rollup height 8.";
    assert_eq!(extract_rollup_height_from_error(first_without_digits), None);
}

#[test]
fn marker_must_be_complete_and_exact() {
    assert_eq!(
        extract_rollup_height_from_error("Block state assertion failed at rollup height14."),
        None
    );
    assert_eq!(
        extract_rollup_height_from_error("block state assertion failed at rollup height 14."),
        None
    );
    assert_eq!(extract_rollup_height_from_error(""), None);
}

#[test]
fn characters_outside_ascii_do_not_shift_the_height() {
    let message = "h\u{e9}\u{1F600} Block state assertion failed at rollup height 77\u{e9}";
    assert_eq!(extract_rollup_height_from_error(message), Some(77));
    let other_digits = "Block state assertion failed at rollup height \u{0663}4.";
    assert_eq!(extract_rollup_height_from_error(other_digits), None);
}

#[test]
fn digits_are_zero_to_nine() {
    for c in ['0', '1', '5', '9'] {
        assert!(is_decimal_digit(c));
    }
    for c in ['/', ':', 'a', ' ', '.', '\u{0663}'] {
        assert!(!is_decimal_digit(c));
    }
}

#[test]
fn parses_the_digits_at_a_position() {
    let text: Vec<char> = "ab120c".chars().collect();
    assert_eq!(parse_leading_height(&text, 2), Some(120));
    assert_eq!(parse_leading_height(&text, 3), Some(20));
    assert_eq!(parse_leading_height(&text, 0), None);
    assert_eq!(parse_leading_height(&text, 5), None);
    assert_eq!(parse_leading_height(&text, 6), None);
    assert_eq!(parse_leading_height(&text, 7), None);
    assert_eq!(parse_leading_height(&text, usize::MAX), None);
}

#[test]
fn chars_of_gives_every_character() {
    assert_eq!(chars_of("a\u{e9}b"), vec!['a', '\u{e9}', 'b']);
    assert_eq!(chars_of(""), Vec::<char>::new());
}

#[test]
fn finds_the_leftmost_occurrence() {
    let text: Vec<char> = "abcabc".chars().collect();
    let bc: Vec<char> = "bc".chars().collect();
    let cb: Vec<char> = "cb".chars().collect();
    let empty: Vec<char> = Vec::new();
    let long: Vec<char> = "abcabcd".chars().collect();
    assert_eq!(find_phrase(&text, &bc), Some(1));
    assert_eq!(find_phrase(&text, &cb), None);
    assert_eq!(find_phrase(&text, &empty), Some(0));
    assert_eq!(find_phrase(&empty, &empty), Some(0));
    assert_eq!(find_phrase(&text, &long), None);
    assert_eq!(find_phrase(&text, &text), Some(0));
    assert!(stands_at(&text, &bc, 4));
    assert!(!stands_at(&text, &bc, 3));
    assert!(!stands_at(&text, &bc, 5));
    assert!(!stands_at(&text, &bc, 6));
    assert!(!stands_at(&text, &bc, usize::MAX));
    assert!(stands_at(&text, &empty, 6));
    assert!(!stands_at(&text, &empty, 7));
}

#[test]
fn contains_phrase_agrees_with_str_contains() {
    let texts = ["", "a", "stop height", "the stop height was reached", "stop  height", "sto"];
    let phrases = ["", "stop height", "height", "x"];
    for text in texts {
        for phrase in phrases {
            assert_eq!(contains_phrase(text, phrase), text.contains(phrase));
        }
    }
}
