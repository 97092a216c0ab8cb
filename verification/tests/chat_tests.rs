use r2wc::chat::{
    decode_key, is_quit, tail, trim, try_tail, try_wrap, wrap, Key, Keymap, PROMPT_WIDTH,
    QUIT_COMMAND,
};

const KEYS: Keymap = Keymap { enter: 0x157, backspace: 0x107, resize: 0x19a };

#[test]
fn trim_keeps_the_newest_lines() {
    let mut log = vec![1, 2, 3, 4, 5];
    trim(&mut log, 3);
    assert_eq!(log, vec![3, 4, 5]);
}

#[test]
fn trim_leaves_a_short_log_alone() {
    let mut log = vec![(String::from("a"), true), (String::from("b"), false)];
    trim(&mut log, 2);
    assert_eq!(log, vec![(String::from("a"), true), (String::from("b"), false)]);
    trim(&mut log, 10);
    assert_eq!(log.len(), 2);
    trim(&mut log, usize::MAX);
    assert_eq!(log.len(), 2);
}

#[test]
fn trim_to_no_rows_empties_the_log() {
    let mut log = vec!['a', 'b'];
    trim(&mut log, 0);
    assert!(log.is_empty());
    trim(&mut log, 0);
    assert!(log.is_empty());
}

#[test]
fn wrap_breaks_a_long_line_into_full_rows() {
    assert_eq!(try_wrap("abcdefgh", 3), Some(vec!["abc", "def", "gh"]));
    assert_eq!(wrap("abcdefgh", 3), vec!["abc", "def", "gh"]);
}

#[test]
fn wrap_of_a_line_that_fits_is_one_row() {
    assert_eq!(try_wrap("abc", 3), Some(vec!["abc"]));
    assert_eq!(try_wrap("ab", 3), Some(vec!["ab"]));
    assert_eq!(try_wrap("", 3), Some(vec![""]));
    assert_eq!(try_wrap("", 0), Some(vec![""]));
}

#[test]
fn wrap_leaves_no_empty_last_row() {
    assert_eq!(try_wrap("abcdef", 3), Some(vec!["abc", "def"]));
    assert_eq!(try_wrap("abcdef", 1), Some(vec!["a", "b", "c", "d", "e", "f"]));
}

#[test]
fn wrap_needs_room_in_a_row() {
    assert_eq!(try_wrap("a", 0), None);
}

#[test]
fn wrap_counts_bytes_and_never_cuts_a_character() {
    assert_eq!(try_wrap("éé", 2), Some(vec!["é", "é"]));
    assert_eq!(try_wrap("aéb", 3), Some(vec!["aé", "b"]));
    assert_eq!(try_wrap("éé", 1), None);
    assert_eq!(try_wrap("aéb", 2), None);
    assert_eq!(try_wrap("abcé", 3), Some(vec!["abc", "é"]));
}

#[test]
fn tail_shows_the_whole_line_when_it_fits() {
    assert_eq!(PROMPT_WIDTH, 3);
    assert_eq!(try_tail("hello", 8), Some("hello"));
    assert_eq!(try_tail("hello", 80), Some("hello"));
    assert_eq!(try_tail("", 3), Some(""));
    assert_eq!(tail("hello", 8), "hello");
}

#[test]
fn tail_shows_the_end_of_a_long_line() {
    assert_eq!(try_tail("hello", 7), Some("ello"));
    assert_eq!(try_tail("hello", 4), Some("o"));
    assert_eq!(try_tail("hello", 3), Some(""));
    assert_eq!(tail("hello world", 8), "world");
}

#[test]
fn tail_needs_room_for_the_prompt() {
    assert_eq!(try_tail("hello", 2), None);
    assert_eq!(try_tail("", 0), None);
}

#[test]
fn tail_never_begins_inside_a_character() {
    assert_eq!(try_tail("éa", 3), Some(""));
    assert_eq!(try_tail("éa", 4), Some("a"));
    assert_eq!(try_tail("éa", 5), None);
    assert_eq!(try_tail("éa", 6), Some("éa"));
}

#[test]
fn keys_that_enter() {
    assert_eq!(decode_key(0xA, &KEYS), Some(Key::Enter));
    assert_eq!(decode_key(13, &KEYS), Some(Key::Enter));
    assert_eq!(decode_key(0x157, &KEYS), Some(Key::Enter));
}

#[test]
fn keys_that_erase() {
    assert_eq!(decode_key(0x7f, &KEYS), Some(Key::Backspace));
    assert_eq!(decode_key(0x107, &KEYS), Some(Key::Backspace));
}

#[test]
fn keys_that_resize_and_quit() {
    assert_eq!(decode_key(0x19a, &KEYS), Some(Key::Resize));
    assert_eq!(decode_key(12, &KEYS), Some(Key::Quit));
}

#[test]
fn other_keys_are_their_characters() {
    assert_eq!(decode_key(97, &KEYS), Some(Key::Char('a')));
    assert_eq!(decode_key(0, &KEYS), Some(Key::Char('\0')));
    assert_eq!(decode_key(0xE9, &KEYS), Some(Key::Char('é')));
    assert_eq!(decode_key(0x10FFFF, &KEYS), Some(Key::Char('\u{10FFFF}')));
    assert_eq!(decode_key(0xD7FF, &KEYS), Some(Key::Char('\u{D7FF}')));
    assert_eq!(decode_key(0xE000, &KEYS), Some(Key::Char('\u{E000}')));
}

#[test]
fn codes_that_number_no_character_are_no_key() {
    assert_eq!(decode_key(-1, &KEYS), None);
    assert_eq!(decode_key(i32::MIN, &KEYS), None);
    assert_eq!(decode_key(0xD800, &KEYS), None);
    assert_eq!(decode_key(0xDFFF, &KEYS), None);
    assert_eq!(decode_key(0x110000, &KEYS), None);
    assert_eq!(decode_key(i32::MAX, &KEYS), None);
}

#[test]
fn the_keymap_decides_the_keys_without_a_character() {
    let other = Keymap { enter: 500, backspace: 501, resize: 502 };
    assert_eq!(decode_key(500, &other), Some(Key::Enter));
    assert_eq!(decode_key(501, &other), Some(Key::Backspace));
    assert_eq!(decode_key(502, &other), Some(Key::Resize));
    assert_eq!(decode_key(0x157, &other), Some(Key::Char('\u{157}')));
}

#[test]
fn quit_is_one_exact_line() {
    assert_eq!(QUIT_COMMAND, ":quit");
    assert!(is_quit(&String::from(":quit")));
    assert!(!is_quit(&String::from(":quit ")));
    assert!(!is_quit(&String::from("quit")));
    assert!(!is_quit(&String::new()));
}
