//! The rules of a chat window in front of a session: what a received text
//! means, what a key asks for, which lines of the log stay, how a line is
//! broken into rows, and which end of the input line shows.
//!
//! Widths are counted in bytes, and a line is never cut inside a character:
//! where a cut would fall there, the line cannot be laid out.

use vstd::prelude::*;
use vstd::string::*;
use vstd::utf8::*;

use crate::connection::BLOCKED;
use crate::connection::DISCONNECTED;
use crate::connection::EMPTY;
use crate::connection::RECEIVED_NOTICE;

verus! {

/// Whether a number is the code of a character: a Unicode scalar value.
pub open spec fn is_char_code(code: u32) -> bool {
    code <= 0xD7FF || (0xE000 <= code && code <= 0x10FFFF)
}

/// `char::from_u32` gives the character with the given code, and none for a
/// number that is no Unicode scalar value: a surrogate, or one above
/// `0x10FFFF`.
pub assume_specification[ char::from_u32 ](code: u32) -> (c: Option<char>)
    ensures
        c is Some <==> is_char_code(code),
        c matches Some(ch) ==> ch as u32 == code,
;

/// What a text that `receive_message` returned means to the caller.
#[derive(Clone, Copy, Debug, PartialEq, Eq, Structural)]
pub enum Incoming {
    /// The peer tells that the message sent last has arrived.
    Acknowledged,
    /// The peer is gone.
    Disconnected,
    /// No message: no peer is bound, or the peer has sent nothing.
    Nothing,
    /// A message of the peer's; it is answered with
    /// `notify_message_received`.
    Message,
}

/// The meaning of a received text. A message that spells one of the fixed
/// answers is taken for that answer.
pub open spec fn meaning(text: Seq<char>) -> Incoming {
    if text == RECEIVED_NOTICE@ {
        Incoming::Acknowledged
    } else if text == DISCONNECTED@ {
        Incoming::Disconnected
    } else if text == EMPTY@ || text == BLOCKED@ {
        Incoming::Nothing
    } else {
        Incoming::Message
    }
}

/// Tells what a text that `receive_message` returned means.
pub fn classify(text: &String) -> (kind: Incoming)
    ensures
        kind == meaning(text@),
{
    if *text == String::from_str(RECEIVED_NOTICE) {
        Incoming::Acknowledged
    } else if *text == String::from_str(DISCONNECTED) {
        Incoming::Disconnected
    } else if *text == String::from_str(EMPTY) || *text == String::from_str(BLOCKED) {
        Incoming::Nothing
    } else {
        Incoming::Message
    }
}

/// The line that ends the program when it is entered.
pub const QUIT_COMMAND: &'static str = ":quit";

/// The codes under which a terminal reports the keys that have no character.
pub struct Keymap {
    /// The enter key of the keypad.
    pub enter: i32,
    /// The backspace key.
    pub backspace: i32,
    /// The window has changed its size.
    pub resize: i32,
}

/// What a key press asks for.
#[derive(Clone, Copy, Debug, PartialEq, Eq)]
pub enum Key {
    /// Send the input line.
    Enter,
    /// Take the last character off the input line.
    Backspace,
    /// Lay the window out anew.
    Resize,
    /// End the program.
    Quit,
    /// Put a character at the end of the input line.
    Char(char),
}

/// The key that a code stands for: line feed, carriage return and the
/// keypad's enter key enter; delete and the backspace key erase; form feed
/// quits; any other code is the character it numbers, taken as an unsigned
/// number of 32 bits. A code that numbers no character is no key.
pub open spec fn key_of(code: i32, keys: Keymap) -> Option<Key> {
    if code == 0xA || code == 13 || code == keys.enter {
        Some(Key::Enter)
    } else if code == 0x7f || code == keys.backspace {
        Some(Key::Backspace)
    } else if code == keys.resize {
        Some(Key::Resize)
    } else if code == 12 {
        Some(Key::Quit)
    } else if is_char_code(code as u32) {
        Some(Key::Char((code as u32) as char))
    } else {
        None
    }
}

/// Tells which key a code from the terminal stands for.
pub fn decode_key(code: i32, keys: &Keymap) -> (key: Option<Key>)
    ensures
        key == key_of(code, *keys),
{
    if code == 0xA || code == 13 || code == keys.enter {
        Some(Key::Enter)
    } else if code == 0x7f || code == keys.backspace {
        Some(Key::Backspace)
    } else if code == keys.resize {
        Some(Key::Resize)
    } else if code == 12 {
        Some(Key::Quit)
    } else {
        match char::from_u32(#[verifier::truncate] (code as u32)) {
            Some(c) => {
                proof {
                    char_u32_cast(c, code as u32);
                }
                Some(Key::Char(c))
            },
            None => None,
        }
    }
}

/// Whether the input line is the command to quit.
pub fn is_quit(line: &String) -> (yes: bool)
    ensures
        yes == (line@ == QUIT_COMMAND@),
{
    *line == String::from_str(QUIT_COMMAND)
}

/// The columns that the prompt takes before the input line.
pub const PROMPT_WIDTH: usize = 3;

/// The newest `rows` lines of a log; all of it where it has no more.
pub open spec fn kept<T>(log: Seq<T>, rows: nat) -> Seq<T> {
    if log.len() > rows {
        log.skip(log.len() - rows)
    } else {
        log
    }
}

/// Drops the oldest lines of the log until no more than `rows` are left.
pub fn trim<T>(log: &mut Vec<T>, rows: usize)
    ensures
        final(log)@ == kept(old(log)@, rows as nat),
{
    let ghost dropped: int = 0;
    while log.len() > rows
        invariant
            0 <= dropped <= old(log)@.len(),
            log@ == old(log)@.skip(dropped),
            dropped > 0 ==> log@.len() >= rows,
        decreases log.len(),
    {
        let ghost before = log@;
        log.remove(0);
        proof {
            assert(log@ =~= before.skip(1));
            assert(before.skip(1) =~= old(log)@.skip(dropped + 1));
            dropped = dropped + 1;
        }
    }
    assert(log@ =~= kept(old(log)@, rows as nat));
}

/// The rows that hold `bytes` at `width` bytes a row: every row is full but
/// the last, which holds what is left. Text that fits is one row, the empty
/// text too.
pub open spec fn rows_of(bytes: Seq<u8>, width: nat) -> Seq<Seq<u8>>
    decreases bytes.len(),
{
    if width == 0 || bytes.len() <= width {
        seq![bytes]
    } else {
        seq![bytes.take(width as int)] + rows_of(bytes.skip(width as int), width)
    }
}

/// The rows hold the text and nothing else: there is at least one, joined
/// end to end they are `bytes`, none is longer than `width`, and every row
/// but the last is full.
pub proof fn lemma_rows_cover(bytes: Seq<u8>, width: nat)
    requires
        width > 0,
    ensures
        rows_of(bytes, width).len() >= 1,
        rows_of(bytes, width).flatten() == bytes,
        forall|i: int|
            0 <= i < rows_of(bytes, width).len() ==> (#[trigger] rows_of(bytes, width)[i]).len()
                <= width,
        forall|i: int|
            0 <= i < rows_of(bytes, width).len() - 1 ==> (#[trigger] rows_of(
                bytes,
                width,
            )[i]).len() == width,
    decreases bytes.len(),
{
    let rows = rows_of(bytes, width);
    if bytes.len() <= width {
        assert(rows.drop_first() =~= Seq::<Seq<u8>>::empty());
        assert(rows.flatten() =~= bytes) by {
            reveal_with_fuel(Seq::flatten, 2);
        }
    } else {
        let head = bytes.take(width as int);
        let rest = rows_of(bytes.skip(width as int), width);
        lemma_rows_cover(bytes.skip(width as int), width);
        assert(rows.first() == head);
        assert(rows.drop_first() =~= rest);
        assert(rows.flatten() =~= bytes);
        assert forall|i: int| 0 <= i < rows.len() implies (#[trigger] rows[i]).len() <= width by {
            if i > 0 {
                assert(rows[i] == rest[i - 1]);
            }
        }
        assert forall|i: int| 0 <= i < rows.len() - 1 implies (#[trigger] rows[i]).len()
            == width by {
            if i > 0 {
                assert(rows[i] == rest[i - 1]);
            }
        }
    }
}

/// Whether `bytes` can be broken into rows of `width`: either they fit in one
/// row, or there is room in a row and every cut falls between two
/// characters.
pub open spec fn wraps(bytes: Seq<u8>, width: nat) -> bool
    decreases bytes.len(),
{
    bytes.len() <= width || (width > 0 && is_char_boundary(bytes, width as int) && wraps(
        bytes.skip(width as int),
        width,
    ))
}

/// The bytes of each row.
pub open spec fn row_bytes(rows: Seq<&str>) -> Seq<Seq<u8>> {
    Seq::new(rows.len(), |i: int| rows[i].spec_bytes())
}

/// Breaks `text` into rows of `width` bytes, where it can be.
pub fn try_wrap<'a>(text: &'a str, width: usize) -> (rows: Option<Vec<&'a str>>)
    ensures
        match rows {
            Some(r) => wraps(text.spec_bytes(), width as nat) && row_bytes(r@) == rows_of(
                text.spec_bytes(),
                width as nat,
            ),
            None => !wraps(text.spec_bytes(), width as nat),
        },
{
    let mut rows: Vec<&'a str> = Vec::new();
    let mut rest: &'a str = text;
    assert(row_bytes(rows@) =~= Seq::<Seq<u8>>::empty());
    while rest.as_bytes().len() > width
        invariant
            rows_of(text.spec_bytes(), width as nat) == row_bytes(rows@) + rows_of(
                rest.spec_bytes(),
                width as nat,
            ),
            wraps(text.spec_bytes(), width as nat) == wraps(rest.spec_bytes(), width as nat),
        decreases rest.spec_bytes().len(),
    {
        if width == 0 || !rest.is_char_boundary(width) {
            return None;
        }
        let ghost whole = rest.spec_bytes();
        let ghost done = row_bytes(rows@);
        let (first, next) = rest.split_at(width);
        rows.push(first);
        rest = next;
        proof {
            assert(first.spec_bytes() =~= whole.take(width as int));
            assert(next.spec_bytes() =~= whole.skip(width as int));
            assert(row_bytes(rows@) =~= done + seq![first.spec_bytes()]);
            assert(rows_of(text.spec_bytes(), width as nat) =~= row_bytes(rows@) + rows_of(
                rest.spec_bytes(),
                width as nat,
            ));
        }
    }
    let ghost done = row_bytes(rows@);
    rows.push(rest);
    assert(row_bytes(rows@) =~= done + seq![rest.spec_bytes()]);
    Some(rows)
}

/// Breaks `text` into rows of `width` bytes.
pub fn wrap<'a>(text: &'a str, width: usize) -> (rows: Vec<&'a str>)
    requires
        wraps(text.spec_bytes(), width as nat),
    ensures
        row_bytes(rows@) == rows_of(text.spec_bytes(), width as nat),
{
    try_wrap(text, width).unwrap()
}

/// Where the part of an input line of `len` bytes begins that shows in a
/// window `width` columns wide, behind the prompt: at the start where prompt
/// and line fit, else as far in as the line overruns the window.
pub open spec fn tail_start(len: nat, width: nat) -> nat {
    if len + PROMPT_WIDTH > width {
        (len + PROMPT_WIDTH - width) as nat
    } else {
        0
    }
}

/// The end of the input line that shows behind the prompt. There is none
/// where the window is narrower than the prompt, or where the line would be
/// cut inside a character.
pub fn try_tail<'a>(line: &'a str, width: usize) -> (tail: Option<&'a str>)
    ensures
        match tail {
            Some(t) => is_char_boundary(
                line.spec_bytes(),
                tail_start(line.spec_bytes().len(), width as nat) as int,
            ) && t.spec_bytes() == line.spec_bytes().skip(
                tail_start(line.spec_bytes().len(), width as nat) as int,
            ),
            None => !is_char_boundary(
                line.spec_bytes(),
                tail_start(line.spec_bytes().len(), width as nat) as int,
            ),
        },
{
    proof {
        encode_utf8_valid_utf8(line@);
        is_char_boundary_start_end_of_seq(line.spec_bytes());
    }
    if width < PROMPT_WIDTH {
        return None;
    }
    let room = width - PROMPT_WIDTH;
    let len = line.as_bytes().len();
    if len <= room {
        assert(line.spec_bytes().skip(0) =~= line.spec_bytes());
        return Some(line);
    }
    let cut = len - room;
    if !line.is_char_boundary(cut) {
        return None;
    }
    let (_, tail) = line.split_at(cut);
    assert(tail.spec_bytes() =~= line.spec_bytes().skip(cut as int));
    Some(tail)
}

/// The end of the input line that shows behind the prompt.
pub fn tail<'a>(line: &'a str, width: usize) -> (tail: &'a str)
    requires
        is_char_boundary(
            line.spec_bytes(),
            tail_start(line.spec_bytes().len(), width as nat) as int,
        ),
    ensures
        tail.spec_bytes() == line.spec_bytes().skip(
            tail_start(line.spec_bytes().len(), width as nat) as int,
        ),
{
    try_tail(line, width).unwrap()
}

} // verus!
