//! The closed set of severities, each with a fixed label and a fixed
//! display colour.

use vstd::prelude::*;

verus! {

/// One of the six fixed log levels.
#[derive(Clone, Copy, PartialEq, Eq, Structural, Debug)]
pub enum LogLevel {
    Fatal,
    Error,
    Warn,
    Info,
    Debug,
    Silly,
}

/// The display colours the renderer uses.
#[derive(Clone, Copy, PartialEq, Eq, Structural, Debug)]
pub enum Colour {
    Red,
    BrightRed,
    BrightYellow,
    BrightGreen,
    BrightBlue,
    BrightMagenta,
}

/// The label text of a severity, colon included, before padding.
pub open spec fn label_chars(level: LogLevel) -> Seq<char> {
    match level {
        LogLevel::Fatal => seq!['f', 'a', 't', 'a', 'l', ':'],
        LogLevel::Error => seq!['e', 'r', 'r', 'o', 'r', ':'],
        LogLevel::Warn => seq!['w', 'a', 'r', 'n', ':'],
        LogLevel::Info => seq!['i', 'n', 'f', 'o', ':'],
        LogLevel::Debug => seq!['d', 'e', 'b', 'u', 'g', ':'],
        LogLevel::Silly => seq!['s', 'i', 'l', 'l', 'y', ':'],
    }
}

/// Every label is padded to this width so that the glyph column lines up
/// across severities.
pub open spec fn label_width() -> nat {
    6
}

/// The label text padded on the right with spaces to the label width.
pub open spec fn padded_label_chars(level: LogLevel) -> Seq<char> {
    crate::text::pad_right_chars(label_chars(level), label_width())
}

/// The display colour of a severity.
pub open spec fn colour_of(level: LogLevel) -> Colour {
    match level {
        LogLevel::Fatal => Colour::Red,
        LogLevel::Error => Colour::BrightRed,
        LogLevel::Warn => Colour::BrightYellow,
        LogLevel::Info => Colour::BrightGreen,
        LogLevel::Debug => Colour::BrightBlue,
        LogLevel::Silly => Colour::BrightMagenta,
    }
}

/// Labels are printable ASCII, padded or not.
pub proof fn lemma_label_printable(level: LogLevel)
    ensures
        crate::text::all_ascii_printable(label_chars(level)),
        crate::text::all_ascii_printable(padded_label_chars(level)),
{
    let l = label_chars(level);
    assert(crate::text::all_ascii_printable(l)) by {
        assert(forall|i: int| 0 <= i < l.len() ==> ' ' <= #[trigger] l[i] <= '~');
    }
    let p = padded_label_chars(level);
    assert forall|i: int| 0 <= i < p.len() implies ' ' <= #[trigger] p[i] <= '~' by {
        if i < l.len() {
            assert(p[i] == l[i]);
        } else {
            assert(p[i] == ' ');
        }
    }
}

/// The label text of `level`, as a string slice.
pub fn label_str(level: LogLevel) -> (r: &'static str)
    ensures
        r@ == label_chars(level),
        crate::text::all_ascii_printable(r@),
{
    proof {
        reveal_strlit("fatal:");
        reveal_strlit("error:");
        reveal_strlit("warn:");
        reveal_strlit("info:");
        reveal_strlit("debug:");
        reveal_strlit("silly:");
    }
    match level {
        LogLevel::Fatal => "fatal:",
        LogLevel::Error => "error:",
        LogLevel::Warn => "warn:",
        LogLevel::Info => "info:",
        LogLevel::Debug => "debug:",
        LogLevel::Silly => "silly:",
    }
}

/// The display colour of `level`.
pub fn get_colour(level: LogLevel) -> (r: Colour)
    ensures
        r == colour_of(level),
{
    match level {
        LogLevel::Fatal => Colour::Red,
        LogLevel::Error => Colour::BrightRed,
        LogLevel::Warn => Colour::BrightYellow,
        LogLevel::Info => Colour::BrightGreen,
        LogLevel::Debug => Colour::BrightBlue,
        LogLevel::Silly => Colour::BrightMagenta,
    }
}

} // verus!
