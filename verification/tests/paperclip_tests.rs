use paperclip::clipboard::{
    choose_display, contains_control_chars, contains_escape_sequence, examined_byte_count,
    hex_byte, hex_bytes, is_safe_to_display, DisplayChoice, TextSample, EXAMINED_PREFIX_LIMIT,
};
use paperclip::monitor::{MonitorState, PollOutcome, CHECKING, POLL_INTERVAL_MS};
use paperclip::timestamp::{format_reading, format_timestamp, timestamp};

#[test]
fn timestamp_pads_milliseconds_to_three_digits() {
    assert_eq!(format_timestamp(1700000000, 5), "[1700000000.005]");
    assert_eq!(format_timestamp(7, 40), "[7.040]");
    assert_eq!(format_timestamp(12, 345), "[12.345]");
    assert_eq!(format_timestamp(0, 0), "[0.000]");
}

#[test]
fn timestamp_extremes() {
    assert_eq!(format_timestamp(u64::MAX, 999), "[18446744073709551615.999]");
    assert_eq!(format_timestamp(10, 100), "[10.100]");
    // the padding is a minimum width, as with `{:03}`
    assert_eq!(format_timestamp(3, 1234), "[3.1234]");
}

#[test]
fn timestamp_of_now_has_the_log_prefix_shape() {
    let t = timestamp();
    assert!(t.starts_with('['));
    assert!(t.ends_with(']'));
    let inner = &t[1..t.len() - 1];
    let (secs, millis) = inner.split_once('.').expect("a dot between seconds and milliseconds");
    assert_eq!(millis.len(), 3);
    assert!(millis.chars().all(|c| c.is_ascii_digit()));
    let secs: u64 = secs.parse().expect("decimal seconds");
    // the clock of this machine is well past 2020
    assert!(secs > 1_577_836_800);
}

#[test]
fn distinct_readings_give_distinct_timestamps() {
    assert_ne!(format_timestamp(1, 23), format_timestamp(12, 3));
    assert_ne!(format_timestamp(1, 230), format_timestamp(12, 30));
    assert_eq!(format_timestamp(42, 7), format_timestamp(42, 7));
}

#[test]
fn examined_count_is_capped_at_twenty() {
    assert_eq!(EXAMINED_PREFIX_LIMIT, 20);
    assert_eq!(examined_byte_count(0), 0);
    assert_eq!(examined_byte_count(5), 5);
    assert_eq!(examined_byte_count(20), 20);
    assert_eq!(examined_byte_count(21), 20);
    assert_eq!(examined_byte_count(usize::MAX), 20);
}

#[test]
fn control_chars_other_than_whitespace_are_found() {
    assert!(!contains_control_chars(b"hello world"));
    assert!(!contains_control_chars(b"tab\there\nnew line\r\n"));
    assert!(contains_control_chars(b"bell\x07"));
    assert!(contains_control_chars(&[0u8]));
    assert!(contains_control_chars(&[31u8]));
    assert!(!contains_control_chars(&[32u8, 127u8, 200u8]));
    assert!(!contains_control_chars(&[]));
}

#[test]
fn escape_sequences_are_found() {
    assert!(contains_escape_sequence(b"\x1b[31mred"));
    assert!(contains_escape_sequence(b"ab\x1b["));
    assert!(!contains_escape_sequence(b"\x1b"));
    assert!(!contains_escape_sequence(b"[\x1b"));
    assert!(!contains_escape_sequence(b"\x1bX["));
    assert!(!contains_escape_sequence(&[]));
}

#[test]
fn empty_text_is_shown() {
    assert!(is_safe_to_display(0, None));
    assert!(is_safe_to_display(0, Some(b"")));
}

#[test]
fn text_without_utf8_form_is_not_shown() {
    assert!(!is_safe_to_display(5, None));
}

#[test]
fn plain_text_is_shown() {
    assert!(is_safe_to_display(11, Some(b"hello world")));
    assert!(is_safe_to_display(3, Some(b"a\tb")));
}

#[test]
fn terminal_text_is_hidden() {
    assert!(!is_safe_to_display(8, Some(b"\x1b[32mok!")));
    assert!(!is_safe_to_display(3, Some(b"ab\x1b")));
    assert!(!is_safe_to_display(4, Some(b"a\x08bc")));
}

#[test]
fn only_the_first_twenty_bytes_decide() {
    let mut late = b"abcdefghijklmnopqrstuvwxyz".to_vec();
    late[22] = 0x07;
    assert!(is_safe_to_display(26, Some(&late)));
    let mut early = late.clone();
    early[19] = 0x07;
    assert!(!is_safe_to_display(26, Some(&early)));
    // bytes past the UTF-16 length are not examined either
    assert!(is_safe_to_display(2, Some(b"ab\x07")));
}

#[test]
fn display_choice_for_each_kind_of_content() {
    assert_eq!(choose_display(&None), DisplayChoice::ShowNonTextNotice);
    let plain = Some(TextSample { utf16_len: 5, utf8_prefix: Some(b"hello".to_vec()) });
    assert_eq!(choose_display(&plain), DisplayChoice::ShowText);
    let terminal = Some(TextSample { utf16_len: 6, utf8_prefix: Some(b"\x1b[0m$ ".to_vec()) });
    assert_eq!(choose_display(&terminal), DisplayChoice::ShowTerminalPlaceholder);
    let no_utf8 = Some(TextSample { utf16_len: 3, utf8_prefix: None });
    assert_eq!(choose_display(&no_utf8), DisplayChoice::ShowTerminalPlaceholder);
    let empty = Some(TextSample { utf16_len: 0, utf8_prefix: None });
    assert_eq!(choose_display(&empty), DisplayChoice::ShowText);
}

#[test]
fn fixed_texts_of_the_choices() {
    assert_eq!(DisplayChoice::ShowText.fixed_text(), None);
    assert_eq!(
        DisplayChoice::ShowTerminalPlaceholder.fixed_text(),
        Some("[Terminal text - copied but not displayed for stability]")
    );
    assert_eq!(
        DisplayChoice::ShowNonTextNotice.fixed_text(),
        Some("Clipboard contains non-text content")
    );
}

#[test]
fn bytes_in_lower_case_hex() {
    assert_eq!(hex_byte(0), "00");
    assert_eq!(hex_byte(0x1b), "1b");
    assert_eq!(hex_byte(0xa5), "a5");
    assert_eq!(hex_byte(255), "ff");
    assert_eq!(hex_bytes(b"\x1b[A"), vec!["1b".to_string(), "5b".to_string(), "41".to_string()]);
    assert!(hex_bytes(&[]).is_empty());
}

#[test]
fn hex_reads_back_as_the_byte() {
    for b in 0..=255u8 {
        let h = hex_byte(b);
        assert_eq!(h.len(), 2);
        assert_eq!(u8::from_str_radix(&h, 16).unwrap(), b);
    }
}

#[test]
fn monitor_starts_switched_off() {
    let mut m = MonitorState::new();
    assert_eq!(m, MonitorState { should_check: 0, change_count: 0 });
    assert!(!m.is_checking());
    assert_eq!(m.poll(3), PollOutcome::Stop);
    assert_eq!(m.change_count, 0);
    assert_eq!(POLL_INTERVAL_MS, 500);
}

#[test]
fn monitor_reports_each_change_once() {
    let mut m = MonitorState::new();
    m.record_change_count(41);
    m.enable();
    assert!(m.is_checking());
    assert_eq!(m.should_check, CHECKING);
    assert_eq!(m.poll(41), PollOutcome::Wait);
    assert_eq!(m.poll(42), PollOutcome::Refresh { previous: 41, current: 42 });
    assert_eq!(m.change_count, 42);
    assert_eq!(m.poll(42), PollOutcome::Wait);
    assert_eq!(m.poll(40), PollOutcome::Refresh { previous: 42, current: 40 });
    assert_eq!(m.poll(40), PollOutcome::Wait);
}

#[test]
fn monitor_counts_refreshes_as_changes() {
    let mut m = MonitorState::new();
    m.record_change_count(1);
    m.enable();
    let observed = [1isize, 2, 2, 2, 5, 1, 1];
    let refreshes = observed
        .iter()
        .filter(|&&c| matches!(m.poll(c), PollOutcome::Refresh { .. }))
        .count();
    assert_eq!(refreshes, 3);
    assert_eq!(m.change_count, 1);
}

#[test]
fn monitor_stops_once_switched_off() {
    let mut m = MonitorState::new();
    m.record_change_count(7);
    m.enable();
    m.disable();
    assert_eq!(m.should_check, 0);
    assert_eq!(m.poll(8), PollOutcome::Stop);
    assert_eq!(m.change_count, 7);
    assert_eq!(m.poll(9), PollOutcome::Stop);
}

#[test]
fn negative_change_counts_are_stored_by_their_bits() {
    let mut m = MonitorState::new();
    m.record_change_count(-1);
    assert_eq!(m.change_count, u64::MAX);
    m.enable();
    assert_eq!(m.poll(-1), PollOutcome::Wait);
    assert_eq!(m.poll(-2), PollOutcome::Refresh { previous: u64::MAX, current: u64::MAX - 1 });
}

#[test]
fn clock_before_the_epoch_reads_as_zero() {
    assert_eq!(format_reading(None), "[0.000]");
}

#[test]
fn clock_reading_is_formatted_as_given() {
    assert_eq!(format_reading(Some((1700000000, 42))), "[1700000000.042]");
    assert_eq!(format_reading(Some((0, 0))), format_reading(None));
    assert_eq!(format_reading(Some((5, 999))), "[5.999]");
}

#[test]
fn timestamp_shows_the_current_reading() {
    fn millis_since_epoch() -> u128 {
        std::time::SystemTime::now()
            .duration_since(std::time::UNIX_EPOCH)
            .unwrap()
            .as_millis()
    }
    let before = millis_since_epoch();
    let t = timestamp();
    let after = millis_since_epoch();
    let inner = &t[1..t.len() - 1];
    let (secs, millis) = inner.split_once('.').unwrap();
    let shown = secs.parse::<u128>().unwrap() * 1000 + millis.parse::<u128>().unwrap();
    assert!(before <= shown && shown <= after);
}
