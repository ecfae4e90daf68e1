//! The renderer's laws: what every rendered line or block shows of its
//! inputs, stated over the rendering predicates and proved once for all
//! inputs.

use vstd::prelude::*;
use crate::severity::{LogLevel, colour_of, padded_label_chars, lemma_label_printable};
use crate::ansi::{
    is_styled, dim_prefix, colour_prefix, occurs, occurs_at, reset_chars,
    lemma_printable_no_reset, lemma_inner_escaped_plain, lemma_occurs_mid,
};
use crate::clock::{Timestamp, ts_chars};
use crate::render::{
    is_rendered_line, is_rendered_block, header_chars, glyph_start, has_call_site,
    block_value_lines,
};
use crate::text::{split_lines_chars, newline_count, lemma_split_lines_count};

verus! {

/// Law: every rendered log line shows the severity's padded label, styled
/// in the severity's designated colour or plain, and in either case the
/// fixed label text itself stands in the line verbatim.
pub proof fn lemma_line_shows_label(
    level: LogLevel,
    tag: Seq<char>,
    msg: Seq<char>,
    ts: Timestamp,
    padded: bool,
    glyph: Seq<char>,
    out: Seq<char>,
)
    requires
        is_rendered_line(level, tag, msg, ts, padded, glyph, out),
    ensures
        exists|lp: Seq<char>|
            #[trigger] is_styled(padded_label_chars(level), colour_prefix(colour_of(level)), lp)
                && occurs(out, lp),
        occurs(out, padded_label_chars(level)),
{
    let (tsp, lp, tp, mp) = choose|tsp: Seq<char>, lp: Seq<char>, tp: Seq<char>, mp: Seq<char>|
        {
            &&& #[trigger] is_styled(ts_chars(ts, padded), dim_prefix(), tsp)
            &&& #[trigger] is_styled(padded_label_chars(level), colour_prefix(colour_of(level)), lp)
            &&& #[trigger] is_styled(tag, colour_prefix(colour_of(level)), tp)
            &&& #[trigger] is_styled(msg, colour_prefix(colour_of(level)), mp)
            &&& out == header_chars(tsp, lp, glyph, tp, mp)
        };
    let a0 = tsp + seq![' '];
    let c0 = seq![' '] + glyph + seq![' ', '['] + tp + seq![']', ' '] + mp;
    assert(out =~= a0 + lp + c0);
    lemma_occurs_mid(a0, lp, c0);
    assert(occurs_at(out, lp, a0.len() as int));

    let lab = padded_label_chars(level);
    lemma_label_printable(level);
    lemma_printable_no_reset(lab);
    if lp == lab {
        assert(occurs(out, lab));
    } else {
        lemma_inner_escaped_plain(lab, colour_prefix(colour_of(level)));
        assert(lp =~= colour_prefix(colour_of(level)) + lab + reset_chars());
        let a1 = a0 + colour_prefix(colour_of(level));
        let c1 = reset_chars() + c0;
        assert(out =~= a1 + lab + c1);
        lemma_occurs_mid(a1, lab, c1);
        assert(occurs_at(out, lab, a1.len() as int));
    }
}

/// Law: a rendered log line holds the message text verbatim, for every
/// message free of embedded reset sequences — in particular for any
/// message made of ordinary text or connector glyphs.
pub proof fn lemma_line_shows_message(
    level: LogLevel,
    tag: Seq<char>,
    msg: Seq<char>,
    ts: Timestamp,
    padded: bool,
    glyph: Seq<char>,
    out: Seq<char>,
)
    requires
        is_rendered_line(level, tag, msg, ts, padded, glyph, out),
        !occurs(msg, reset_chars()),
    ensures
        occurs(out, msg),
{
    let (tsp, lp, tp, mp) = choose|tsp: Seq<char>, lp: Seq<char>, tp: Seq<char>, mp: Seq<char>|
        {
            &&& #[trigger] is_styled(ts_chars(ts, padded), dim_prefix(), tsp)
            &&& #[trigger] is_styled(padded_label_chars(level), colour_prefix(colour_of(level)), lp)
            &&& #[trigger] is_styled(tag, colour_prefix(colour_of(level)), tp)
            &&& #[trigger] is_styled(msg, colour_prefix(colour_of(level)), mp)
            &&& out == header_chars(tsp, lp, glyph, tp, mp)
        };
    let a0 = tsp + seq![' '] + lp + seq![' '] + glyph + seq![' ', '['] + tp + seq![']', ' '];
    if mp == msg {
        assert(out =~= a0 + msg + Seq::<char>::empty());
        lemma_occurs_mid(a0, msg, Seq::empty());
    } else {
        lemma_inner_escaped_plain(msg, colour_prefix(colour_of(level)));
        assert(mp =~= colour_prefix(colour_of(level)) + msg + reset_chars());
        let a1 = a0 + colour_prefix(colour_of(level));
        assert(out =~= a1 + msg + reset_chars());
        lemma_occurs_mid(a1, msg, reset_chars());
    }
}

/// Law: a rendered log line holds the tag text verbatim, for every tag
/// free of embedded reset sequences.
pub proof fn lemma_line_shows_tag(
    level: LogLevel,
    tag: Seq<char>,
    msg: Seq<char>,
    ts: Timestamp,
    padded: bool,
    glyph: Seq<char>,
    out: Seq<char>,
)
    requires
        is_rendered_line(level, tag, msg, ts, padded, glyph, out),
        !occurs(tag, reset_chars()),
    ensures
        occurs(out, tag),
{
    let (tsp, lp, tp, mp) = choose|tsp: Seq<char>, lp: Seq<char>, tp: Seq<char>, mp: Seq<char>|
        {
            &&& #[trigger] is_styled(ts_chars(ts, padded), dim_prefix(), tsp)
            &&& #[trigger] is_styled(padded_label_chars(level), colour_prefix(colour_of(level)), lp)
            &&& #[trigger] is_styled(tag, colour_prefix(colour_of(level)), tp)
            &&& #[trigger] is_styled(msg, colour_prefix(colour_of(level)), mp)
            &&& out == header_chars(tsp, lp, glyph, tp, mp)
        };
    let a0 = tsp + seq![' '] + lp + seq![' '] + glyph + seq![' ', '['];
    let c0 = seq![']', ' '] + mp;
    if tp == tag {
        assert(out =~= a0 + tag + c0);
        lemma_occurs_mid(a0, tag, c0);
    } else {
        lemma_inner_escaped_plain(tag, colour_prefix(colour_of(level)));
        assert(tp =~= colour_prefix(colour_of(level)) + tag + reset_chars());
        let a1 = a0 + colour_prefix(colour_of(level));
        let c1 = reset_chars() + c0;
        assert(out =~= a1 + tag + c1);
        lemma_occurs_mid(a1, tag, c1);
    }
}

/// Law: a block asked to carry neither a call-site line nor an attached
/// value is exactly one line, of the very shape of a single-line header.
pub proof fn lemma_block_without_extras(
    level: LogLevel,
    tag: Seq<char>,
    msg: Seq<char>,
    emit_call_site: bool,
    site: Seq<char>,
    ts: Timestamp,
    outs: Seq<Seq<char>>,
)
    requires
        is_rendered_block(level, tag, msg, emit_call_site, site, Option::None, ts, outs),
        !has_call_site(emit_call_site, site),
    ensures
        outs.len() == 1,
        is_rendered_line(level, tag, msg, ts, true, glyph_start(), outs[0]),
{
    assert(block_value_lines(Option::None).len() == 0);
}

/// Law: a block carrying an attached value whose text has N newlines has
/// exactly N + 1 value lines after the header and the optional call-site
/// line — one line of output per line of the value's text.
pub proof fn lemma_block_line_count(
    level: LogLevel,
    tag: Seq<char>,
    msg: Seq<char>,
    emit_call_site: bool,
    site: Seq<char>,
    value_text: Seq<char>,
    ts: Timestamp,
    outs: Seq<Seq<char>>,
)
    requires
        is_rendered_block(
            level,
            tag,
            msg,
            emit_call_site,
            site,
            Option::Some(value_text),
            ts,
            outs,
        ),
    ensures
        outs.len() == 1 + (if has_call_site(emit_call_site, site) {
            1int
        } else {
            0int
        }) + newline_count(value_text) + 1,
{
    lemma_split_lines_count(value_text);
    assert(block_value_lines(Option::Some(value_text)) == split_lines_chars(value_text));
}

} // verus!
