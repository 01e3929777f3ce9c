use roxl::error_handling::show_last_error;
use roxl::rotation::{
    chars_of, effective_offset, rotate, rotate_left, title, truncate, TRUNCATION_MAX,
};
use roxl::wide::{encode_wide, WideString};
use roxl::window_state::{
    shift_label_text, truncation_label_text, Event, TitleState, TIMER_THRESHOLD,
};

fn wide_of(s: &str) -> Vec<u16> {
    s.encode_utf16().chain(std::iter::once(0)).collect()
}

fn text(v: &[char]) -> String {
    v.iter().collect()
}

#[test]
fn hello_rotated_by_two_truncated_to_three() {
    let chars = chars_of("HELLO");
    assert_eq!(text(&rotate(&chars, 2)), "LLOHE");
    assert_eq!(text(&title("HELLO", 2, 3)), "LLO");
}

#[test]
fn empty_text_gives_empty_title() {
    assert_eq!(effective_offset(5, 0), 0);
    assert_eq!(text(&rotate(&Vec::new(), 5)), "");
    assert_eq!(text(&title("", 5, 3)), "");
    assert_eq!(text(&title("", 0, TRUNCATION_MAX)), "");
}

#[test]
fn rotation_round_trip() {
    let chars = chars_of("abcdefg");
    for offset in 0..20usize {
        let back = 7 - offset % 7;
        assert_eq!(rotate(&rotate(&chars, offset), back), chars);
    }
}

#[test]
fn offset_taken_modulo_length() {
    assert_eq!(effective_offset(12, 5), 2);
    assert_eq!(text(&rotate(&chars_of("HELLO"), 12)), "LLOHE");
    assert_eq!(text(&rotate(&chars_of("HELLO"), 5)), "HELLO");
}

#[test]
fn rotate_left_moves_front_to_back() {
    assert_eq!(text(&rotate_left(&chars_of("abc"), 1)), "bca");
    assert_eq!(text(&rotate_left(&chars_of("abc"), 3)), "abc");
    assert_eq!(text(&rotate_left(&chars_of("héllo wörld"), 4)), "o wörldhéll");
}

#[test]
fn sentinel_keeps_whole_text() {
    let long: String = std::iter::repeat('x').take(45).collect();
    assert_eq!(text(&truncate(&chars_of(&long), TRUNCATION_MAX)), long);
    assert_eq!(text(&title("HELLO", 1, TRUNCATION_MAX)), "ELLOH");
}

#[test]
fn truncation_keeps_prefix() {
    let chars = chars_of("abcdefgh");
    for n in 0..8u32 {
        assert_eq!(truncate(&chars, n), chars[..n as usize].to_vec());
    }
    assert_eq!(text(&truncate(&chars, 20)), "abcdefgh");
    assert_eq!(text(&truncate(&chars, 0)), "");
}

#[test]
fn wide_encoding_matches_utf16() {
    for s in ["", "Window Title", "héllo", "a😀b", "\u{ffff}\u{10000}\u{10ffff}"] {
        assert_eq!(s.convert(), wide_of(s));
        assert_eq!(s.to_string().convert(), wide_of(s));
        assert_eq!(encode_wide(&s.chars().collect()), wide_of(s));
    }
    assert_eq!("😀".convert(), vec![0xD83D, 0xDE00, 0]);
}

#[test]
fn shift_labels() {
    assert_eq!(shift_label_text(0), wide_of("No character shifting."));
    assert_eq!(shift_label_text(1), wide_of("Shifting speed: 1000ms/character"));
    assert_eq!(shift_label_text(16), wide_of("Shifting speed: 63ms/character"));
    assert_eq!(shift_label_text(3), wide_of("Shifting speed: 333ms/character"));
    assert_eq!(shift_label_text(50), wide_of("Shifting speed: 20ms/character"));
}

#[test]
fn truncation_labels() {
    assert_eq!(truncation_label_text(30), wide_of("The whole title is shown."));
    assert_eq!(truncation_label_text(0), wide_of("Maximum title length shown: 0 characters"));
    assert_eq!(truncation_label_text(17), wide_of("Maximum title length shown: 17 characters"));
}

#[test]
fn timer_turns_title_after_threshold() {
    let mut st = TitleState::new();
    st.truncation = TRUNCATION_MAX;
    st.shift_interval = 40;
    let r = st.handle(Event::TimerTick, "HELLO");
    assert!(r.title.is_none() && r.label.is_none());
    assert_eq!(st.ticks, 40);
    let r = st.handle(Event::TimerTick, "HELLO");
    assert!(r.title.is_none());
    assert_eq!(st.ticks, 80);
    let r = st.handle(Event::TimerTick, "HELLO");
    assert_eq!(r.title, Some(wide_of("HELLO")));
    assert_eq!(st.offset, 1);
    assert_eq!(st.ticks, 0);
    for _ in 0..3 {
        st.handle(Event::TimerTick, "HELLO");
    }
    assert_eq!(st.offset, 2);
    let mut last = None;
    for _ in 0..3 {
        last = st.handle(Event::TimerTick, "HELLO").title;
    }
    assert_eq!(last, Some(wide_of("LLOHE")));
    assert!(TIMER_THRESHOLD == 100);
}

#[test]
fn stopped_rotation_never_turns() {
    let mut st = TitleState::new();
    for _ in 0..50 {
        let r = st.handle(Event::TimerTick, "HELLO");
        assert!(r.title.is_none());
    }
    assert_eq!(st.offset, 0);
    assert_eq!(st.ticks, 0);
}

#[test]
fn text_change_resets_offset() {
    let mut st = TitleState::new();
    st.offset = 3;
    st.truncation = TRUNCATION_MAX;
    let r = st.handle(Event::TextChanged, "abcdef");
    assert_eq!(r.title, Some(wide_of("abcdef")));
    assert!(r.label.is_none());
    assert_eq!(st.offset, 0);
}

#[test]
fn zero_speed_resets_and_renders() {
    let mut st = TitleState::new();
    st.offset = 2;
    st.shift_interval = 10;
    st.truncation = 3;
    let r = st.handle(Event::ShiftSpeedMoved(0), "HELLO");
    assert_eq!(r.title, Some(wide_of("HEL")));
    assert_eq!(r.label, Some(wide_of("No character shifting.")));
    assert_eq!(st.offset, 0);
    assert_eq!(st.shift_interval, 0);
}

#[test]
fn nonzero_speed_keeps_title() {
    let mut st = TitleState::new();
    st.offset = 2;
    let r = st.handle(Event::ShiftSpeedMoved(25), "HELLO");
    assert!(r.title.is_none());
    assert_eq!(r.label, Some(wide_of("Shifting speed: 40ms/character")));
    assert_eq!(st.offset, 2);
    assert_eq!(st.shift_interval, 25);
}

#[test]
fn truncation_slider_renders_title_and_label() {
    let mut st = TitleState::new();
    st.offset = 7;
    let r = st.handle(Event::TruncationMoved(3), "HELLO");
    assert_eq!(r.title, Some(wide_of("LLO")));
    assert_eq!(r.label, Some(wide_of("Maximum title length shown: 3 characters")));
    assert_eq!(st.offset, 2);
    let r = st.handle(Event::TruncationMoved(TRUNCATION_MAX), "HELLO");
    assert_eq!(r.title, Some(wide_of("LLOHE")));
    assert_eq!(r.label, Some(wide_of("The whole title is shown.")));
}

#[test]
fn error_message_names_action_and_cause() {
    let m = show_last_error("creating a slider", "Access is denied. (os error 5)");
    assert_eq!(m, "Error while creating a slider: Access is denied. (os error 5)");
}
