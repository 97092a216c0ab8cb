//! The line that tells the caller what went out on the wire.
//!
//! It names the frame byte by byte, in decimal, as a bracketed list:
//! `Message sent [104, 105, 0, 0]`.

use vstd::prelude::*;
use vstd::string::*;

verus! {

/// How every report begins.
pub const SENT_PREFIX: &'static str = "Message sent ";

/// The character of a decimal digit.
pub open spec fn digit(d: u8) -> char {
    if d == 0 {
        '0'
    } else if d == 1 {
        '1'
    } else if d == 2 {
        '2'
    } else if d == 3 {
        '3'
    } else if d == 4 {
        '4'
    } else if d == 5 {
        '5'
    } else if d == 6 {
        '6'
    } else if d == 7 {
        '7'
    } else if d == 8 {
        '8'
    } else {
        '9'
    }
}

/// A byte in decimal, without leading zeros.
pub open spec fn decimal(byte: u8) -> Seq<char> {
    if byte >= 100 {
        seq![digit(byte / 100), digit((byte / 10) % 10), digit(byte % 10)]
    } else if byte >= 10 {
        seq![digit(byte / 10), digit(byte % 10)]
    } else {
        seq![digit(byte)]
    }
}

/// The bytes in decimal, in order, with a comma and a space between each two.
pub open spec fn listing(bytes: Seq<u8>) -> Seq<char>
    decreases bytes.len(),
{
    if bytes.len() == 0 {
        Seq::empty()
    } else if bytes.len() == 1 {
        decimal(bytes[0])
    } else {
        listing(bytes.drop_last()) + seq![',', ' '] + decimal(bytes.last())
    }
}

/// The report for a frame: the prefix, then the listing in square brackets.
pub open spec fn sent_report(frame: Seq<u8>) -> Seq<char> {
    SENT_PREFIX@ + seq!['['] + listing(frame) + seq![']']
}

/// One decimal digit as text.
fn digit_text(d: u8) -> (text: &'static str)
    requires
        d < 10,
    ensures
        text@ == seq![digit(d)],
{
    proof {
        reveal_strlit("0");
        reveal_strlit("1");
        reveal_strlit("2");
        reveal_strlit("3");
        reveal_strlit("4");
        reveal_strlit("5");
        reveal_strlit("6");
        reveal_strlit("7");
        reveal_strlit("8");
        reveal_strlit("9");
    }
    let text = if d == 0 {
        "0"
    } else if d == 1 {
        "1"
    } else if d == 2 {
        "2"
    } else if d == 3 {
        "3"
    } else if d == 4 {
        "4"
    } else if d == 5 {
        "5"
    } else if d == 6 {
        "6"
    } else if d == 7 {
        "7"
    } else if d == 8 {
        "8"
    } else {
        "9"
    };
    assert(text@ =~= seq![digit(d)]);
    text
}

/// Writes a byte in decimal at the end of `out`.
fn push_decimal(out: &mut String, byte: u8)
    ensures
        final(out)@ == old(out)@ + decimal(byte),
{
    if byte >= 100 {
        out.append(digit_text(byte / 100));
    }
    if byte >= 10 {
        out.append(digit_text((byte / 10) % 10));
    }
    out.append(digit_text(byte % 10));
    assert(out@ =~= old(out)@ + decimal(byte));
}

/// The report for a frame that is about to be written.
pub fn describe(frame: &[u8]) -> (report: String)
    ensures
        report@ == sent_report(frame@),
{
    let mut report = String::from_str(SENT_PREFIX);
    proof {
        reveal_strlit("[");
        reveal_strlit("]");
    }
    report.append("[");
    assert(report@ =~= SENT_PREFIX@ + seq!['['] + listing(frame@.take(0)));
    let mut i: usize = 0;
    while i < frame.len()
        invariant
            i <= frame.len(),
            report@ == SENT_PREFIX@ + seq!['['] + listing(frame@.take(i as int)),
        decreases frame.len() - i,
    {
        let ghost before = report@;
        if i > 0 {
            proof {
                reveal_strlit(", ");
            }
            report.append(", ");
            assert(report@ =~= before + seq![',', ' ']);
        }
        push_decimal(&mut report, frame[i]);
        proof {
            let next = frame@.take(i + 1);
            assert(next.drop_last() =~= frame@.take(i as int));
            assert(next.last() == frame@[i as int]);
            assert(report@ =~= SENT_PREFIX@ + seq!['['] + listing(next));
        }
        i = i + 1;
    }
    assert(frame@.take(i as int) =~= frame@);
    report.append("]");
    assert(report@ =~= sent_report(frame@));
    report
}

} // verus!
