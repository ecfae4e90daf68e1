//! ANSI styling. The spec side pins down the escape sequences the
//! `colored` crate emits; the exec side calls `colored` through trusted
//! wrappers. Whether colour is applied at all depends on the process
//! environment, so every contract allows both the styled and the plain
//! outcome.

use vstd::prelude::*;
use colored::Colorize;
use crate::severity::Colour;

verus! {

/// The SGR reset sequence that ends every styled span.
pub open spec fn reset_chars() -> Seq<char> {
    seq!['\u{1b}', '[', '0', 'm']
}

/// An SGR control sequence carrying the given code.
pub open spec fn csi(code: Seq<char>) -> Seq<char> {
    seq!['\u{1b}', '['] + code + seq!['m']
}

/// The SGR foreground code of a colour.
pub open spec fn fg_code(c: Colour) -> Seq<char> {
    match c {
        Colour::Red => seq!['3', '1'],
        Colour::BrightRed => seq!['9', '1'],
        Colour::BrightYellow => seq!['9', '3'],
        Colour::BrightGreen => seq!['9', '2'],
        Colour::BrightBlue => seq!['9', '4'],
        Colour::BrightMagenta => seq!['9', '5'],
    }
}

/// The opening sequence of a span in colour `c`.
pub open spec fn colour_prefix(c: Colour) -> Seq<char> {
    csi(fg_code(c))
}

/// The opening sequence of a dimmed span.
pub open spec fn dim_prefix() -> Seq<char> {
    csi(seq!['2'])
}

/// The opening sequence of a dimmed italic span.
pub open spec fn dim_italic_prefix() -> Seq<char> {
    csi(seq!['2', ';', '3'])
}

/// True when `needle` occurs in `hay` starting at index `i`.
pub open spec fn occurs_at(hay: Seq<char>, needle: Seq<char>, i: int) -> bool {
    0 <= i && i + needle.len() <= hay.len() && hay.subrange(i, i + needle.len() as int) == needle
}

/// True when `needle` occurs somewhere in `hay`.
pub open spec fn occurs(hay: Seq<char>, needle: Seq<char>) -> bool {
    exists|i: int| #[trigger] occurs_at(hay, needle, i)
}

/// `s` with the style sequence re-opened after each embedded reset: every
/// occurrence of the reset sequence, scanned from the left without
/// overlap, gets `style` appended right after it. This is how `colored`
/// keeps a styled span styled across resets nested inside it.
pub open spec fn inner_escaped(s: Seq<char>, style: Seq<char>) -> Seq<char>
    decreases s.len(),
{
    if s.len() == 0 {
        Seq::empty()
    } else if s.len() >= 4 && s.subrange(0, 4) == reset_chars() {
        reset_chars() + style + inner_escaped(s.skip(4), style)
    } else {
        seq![s[0]] + inner_escaped(s.skip(1), style)
    }
}

/// What a styling call may return for input `s` and opening sequence
/// `prefix`: the input unchanged (colour disabled for this process), or
/// the input wrapped in `prefix` and the reset sequence, with inner
/// resets re-opened.
pub open spec fn is_styled(s: Seq<char>, prefix: Seq<char>, out: Seq<char>) -> bool {
    out == s || out == prefix + inner_escaped(s, prefix) + reset_chars()
}

/// On text free of embedded resets, re-opening changes nothing.
pub proof fn lemma_inner_escaped_plain(s: Seq<char>, style: Seq<char>)
    requires
        !occurs(s, reset_chars()),
    ensures
        inner_escaped(s, style) == s,
    decreases s.len(),
{
    if s.len() == 0 {
        assert(inner_escaped(s, style) =~= s);
    } else {
        if s.len() >= 4 && s.subrange(0, 4) == reset_chars() {
            assert(occurs_at(s, reset_chars(), 0));
            assert(false);
        }
        assert forall|i: int| !#[trigger] occurs_at(s.skip(1), reset_chars(), i) by {
            if occurs_at(s.skip(1), reset_chars(), i) {
                assert(s.skip(1).subrange(i, i + 4) =~= s.subrange(i + 1, i + 5));
                assert(occurs_at(s, reset_chars(), i + 1));
            }
        }
        lemma_inner_escaped_plain(s.skip(1), style);
        assert(inner_escaped(s, style) =~= s);
    }
}

/// Printable ASCII text holds no escape character, so no reset sequence.
pub proof fn lemma_printable_no_reset(s: Seq<char>)
    requires
        crate::text::all_ascii_printable(s),
    ensures
        !occurs(s, reset_chars()),
{
    assert forall|i: int| !#[trigger] occurs_at(s, reset_chars(), i) by {
        if occurs_at(s, reset_chars(), i) {
            assert(s.subrange(i, i + 4)[0] == s[i]);
            assert(s[i] == '\u{1b}');
        }
    }
}

/// A sequence standing between two others occurs in their concatenation.
pub proof fn lemma_occurs_mid(a: Seq<char>, b: Seq<char>, c: Seq<char>)
    ensures
        occurs_at(a + b + c, b, a.len() as int),
        occurs(a + b + c, b),
{
    assert((a + b + c).subrange(a.len() as int, a.len() + b.len() as int) =~= b);
}

/// Relies on `colored::Colorize::color`: the display form of the coloured
/// string is either the input itself (colouring disabled) or the input
/// wrapped in the colour's SGR opening sequence and the reset sequence,
/// with inner resets re-opened.
#[verifier::external_body]
pub(crate) fn paint(s: &str, c: Colour) -> (r: String)
    ensures
        is_styled(s@, colour_prefix(c), r@),
{
    let cc = match c {
        Colour::Red => colored::Color::Red,
        Colour::BrightRed => colored::Color::BrightRed,
        Colour::BrightYellow => colored::Color::BrightYellow,
        Colour::BrightGreen => colored::Color::BrightGreen,
        Colour::BrightBlue => colored::Color::BrightBlue,
        Colour::BrightMagenta => colored::Color::BrightMagenta,
    };
    format!("{}", s.color(cc))
}

/// Relies on `colored::Colorize::dimmed`: the display form is the input
/// itself or the input wrapped in the dim opening sequence and the reset
/// sequence, with inner resets re-opened.
#[verifier::external_body]
pub(crate) fn dim(s: &str) -> (r: String)
    ensures
        is_styled(s@, dim_prefix(), r@),
{
    format!("{}", s.dimmed())
}

/// Relies on `colored::Colorize::italic` and `colored::Colorize::dimmed`:
/// the two style switches are joined into one opening sequence, dim
/// before italic.
#[verifier::external_body]
pub(crate) fn dim_italic(s: &str) -> (r: String)
    ensures
        is_styled(s@, dim_italic_prefix(), r@),
{
    format!("{}", s.italic().dimmed())
}

} // verus!
