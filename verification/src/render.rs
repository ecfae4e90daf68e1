//! The line renderer: one log event becomes either a single line or a
//! block of lines joined by box-drawing connector glyphs.

use vstd::prelude::*;
use vstd::string::*;
use crate::severity::{LogLevel, colour_of, padded_label_chars, label_width, label_str, get_colour};
use crate::ansi::{is_styled, dim_prefix, dim_italic_prefix, colour_prefix, paint, dim, dim_italic};
use crate::clock::{Timestamp, ts_chars, format_timestamp};
use crate::text::{spaces, pad_right, dec_chars, dec_usize, split_lines, split_lines_chars, views_of};

verus! {

/// The marker of a line with no continuation.
pub open spec fn glyph_single() -> Seq<char> {
    seq!['\u{25aa}']
}

/// The marker that opens a block.
pub open spec fn glyph_start() -> Seq<char> {
    seq!['\u{250c}']
}

/// The marker of a continuation line with more lines below it.
pub open spec fn glyph_line() -> Seq<char> {
    seq!['\u{251c}']
}

/// The marker of the last line of a block.
pub open spec fn glyph_end() -> Seq<char> {
    seq!['\u{2514}']
}

/// The fixed set of connector glyphs.
pub struct Connectors {
    pub single_line: &'static str,
    pub block_start: &'static str,
    pub block_line: &'static str,
    pub block_end: &'static str,
}

impl Connectors {
    /// The fields hold the four glyphs.
    pub open spec fn wf(self) -> bool {
        &&& self.single_line@ == glyph_single()
        &&& self.block_start@ == glyph_start()
        &&& self.block_line@ == glyph_line()
        &&& self.block_end@ == glyph_end()
    }
}

impl Default for Connectors {
    fn default() -> (c: Self)
        ensures
            c.wf(),
    {
        proof {
            reveal_strlit("\u{25aa}");
            reveal_strlit("\u{250c}");
            reveal_strlit("\u{251c}");
            reveal_strlit("\u{2514}");
            assert("\u{25aa}"@ =~= glyph_single());
            assert("\u{250c}"@ =~= glyph_start());
            assert("\u{251c}"@ =~= glyph_line());
            assert("\u{2514}"@ =~= glyph_end());
        }
        Connectors {
            single_line: "\u{25aa}",
            block_start: "\u{250c}",
            block_line: "\u{251c}",
            block_end: "\u{2514}",
        }
    }
}

/// The shape every log line opens with: dimmed timestamp, coloured padded
/// label, a connector glyph, the bracketed coloured tag, and the coloured
/// message.
pub open spec fn header_chars(
    tsp: Seq<char>,
    lp: Seq<char>,
    glyph: Seq<char>,
    tp: Seq<char>,
    mp: Seq<char>,
) -> Seq<char> {
    tsp + seq![' '] + lp + seq![' '] + glyph + seq![' ', '['] + tp + seq![']', ' '] + mp
}

/// What one rendered log line may be: the timestamp text dimmed, the
/// padded label, tag and message in the severity's colour, laid out in
/// the header shape. Each styled piece is either wrapped in its escape
/// sequences or left plain, depending on the process environment.
pub open spec fn is_rendered_line(
    level: LogLevel,
    tag: Seq<char>,
    msg: Seq<char>,
    ts: Timestamp,
    padded: bool,
    glyph: Seq<char>,
    out: Seq<char>,
) -> bool {
    exists|tsp: Seq<char>, lp: Seq<char>, tp: Seq<char>, mp: Seq<char>|
        {
            &&& #[trigger] is_styled(ts_chars(ts, padded), dim_prefix(), tsp)
            &&& #[trigger] is_styled(padded_label_chars(level), colour_prefix(colour_of(level)), lp)
            &&& #[trigger] is_styled(tag, colour_prefix(colour_of(level)), tp)
            &&& #[trigger] is_styled(msg, colour_prefix(colour_of(level)), mp)
            &&& out == header_chars(tsp, lp, glyph, tp, mp)
        }
}

/// Renders one log line: timestamp, label, `glyph`, `[tag]`, message.
pub fn render_line(
    level: LogLevel,
    message: &str,
    tag: &str,
    ts: &Timestamp,
    padded: bool,
    glyph: &str,
) -> (r: String)
    ensures
        is_rendered_line(level, tag@, message@, *ts, padded, glyph@, r@),
{
    proof {
        reveal_strlit(" ");
        reveal_strlit(" [");
        reveal_strlit("] ");
    }
    let ts_text = format_timestamp(ts, padded);
    let tsp = dim(ts_text.as_str());
    let label = pad_right(label_str(level), 6);
    let lp = paint(label.as_str(), get_colour(level));
    let tp = paint(tag, get_colour(level));
    let mp = paint(message, get_colour(level));
    proof {
        assert(label@ == padded_label_chars(level));
    }
    let mut s = tsp;
    s.append(" ");
    s.append(lp.as_str());
    s.append(" ");
    s.append(glyph);
    s.append(" [");
    s.append(tp.as_str());
    s.append("] ");
    s.append(mp.as_str());
    proof {
        assert(seq![' ', '[']  =~= " ["@);
        assert(seq![']', ' ']  =~= "] "@);
        assert(s@ =~= header_chars(tsp@, lp@, glyph@, tp@, mp@));
    }
    s
}

/// The indent of a continuation line: spaces up to the column of the
/// header's glyph, that is, past the timestamp, the separating space and
/// the padded label.
pub open spec fn cont_indent(ts: Timestamp) -> Seq<char> {
    spaces(ts_chars(ts, true).len() + label_width() + 2)
}

/// The shape of a continuation line: the indent, a connector glyph, a
/// space, and the line's content.
pub open spec fn cont_line_chars(ts: Timestamp, glyph: Seq<char>, content: Seq<char>) -> Seq<char> {
    cont_indent(ts) + glyph + seq![' '] + content
}

/// A continuation line whose content is styled with the given opening
/// sequence, or left plain, depending on the process environment.
pub open spec fn is_cont_styled(
    ts: Timestamp,
    glyph: Seq<char>,
    prefix: Seq<char>,
    content: Seq<char>,
    out: Seq<char>,
) -> bool {
    exists|c: Seq<char>|
        #[trigger] is_styled(content, prefix, c) && out == cont_line_chars(ts, glyph, c)
}

/// The call-site continuation line: the call-site text, dimmed italic.
pub open spec fn is_site_line(
    ts: Timestamp,
    glyph: Seq<char>,
    site: Seq<char>,
    out: Seq<char>,
) -> bool {
    is_cont_styled(ts, glyph, dim_italic_prefix(), site, out)
}

/// The content of a value-dump line: its one-based index in brackets,
/// then the line of the value's text.
pub open spec fn value_content_chars(idx: nat, line: Seq<char>) -> Seq<char> {
    seq!['['] + dec_chars(idx) + seq![']', ' '] + line
}

/// Value-dump lines past this one-based index are dimmed.
pub open spec fn dim_threshold() -> nat {
    4
}

/// A value-dump continuation line with zero-based index `j`: indexed
/// content, plain for the first lines, dimmed past the threshold.
pub open spec fn is_value_line(
    ts: Timestamp,
    glyph: Seq<char>,
    j: int,
    line: Seq<char>,
    out: Seq<char>,
) -> bool {
    if j + 1 <= dim_threshold() {
        out == cont_line_chars(ts, glyph, value_content_chars((j + 1) as nat, line))
    } else {
        is_cont_styled(ts, glyph, dim_prefix(), value_content_chars((j + 1) as nat, line), out)
    }
}

/// The glyph of the continuation line at position `k` out of `total`: the
/// last one closes the block, the others continue it.
pub open spec fn cont_glyph(k: int, total: int) -> Seq<char> {
    if k == total - 1 {
        glyph_end()
    } else {
        glyph_line()
    }
}

/// The lines of the attached value's text, if one is attached.
pub open spec fn block_value_lines(attached: Option<Seq<char>>) -> Seq<Seq<char>> {
    match attached {
        Option::Some(s) => split_lines_chars(s),
        Option::None => Seq::empty(),
    }
}

/// A call-site line is emitted when it was asked for and a description is
/// available.
pub open spec fn has_call_site(emit_call_site: bool, site: Seq<char>) -> bool {
    emit_call_site && site.len() > 0
}

/// The view of an optional text.
pub open spec fn opt_chars(attached: Option<&str>) -> Option<Seq<char>> {
    match attached {
        Option::Some(s) => Option::Some(s@),
        Option::None => Option::None,
    }
}

/// What a rendered block may be: a header line opened with the block
/// glyph, then the call-site line if asked for and available, then one
/// indexed line per line of the attached value's text, the last
/// continuation line closing the block.
pub open spec fn is_rendered_block(
    level: LogLevel,
    tag: Seq<char>,
    msg: Seq<char>,
    emit_call_site: bool,
    site: Seq<char>,
    attached: Option<Seq<char>>,
    ts: Timestamp,
    outs: Seq<Seq<char>>,
) -> bool {
    let vls = block_value_lines(attached);
    let site_n: int = if has_call_site(emit_call_site, site) {
        1
    } else {
        0
    };
    let n = vls.len() as int;
    &&& outs.len() == 1 + site_n + n
    &&& is_rendered_line(level, tag, msg, ts, true, glyph_start(), outs[0])
    &&& (has_call_site(emit_call_site, site) ==> is_site_line(
        ts,
        cont_glyph(0, site_n + n),
        site,
        outs[1],
    ))
    &&& forall|j: int|
        0 <= j < n ==> is_value_line(
            ts,
            cont_glyph(site_n + j, site_n + n),
            j,
            vls[j],
            #[trigger] outs[1 + site_n + j],
        )
}

/// The indent whose width matches a header that opens with `ts_text`.
fn indent_for(ts_text: &str) -> (r: String)
    ensures
        r@ == spaces(ts_text@.len() + label_width() + 2),
{
    proof {
        reveal_strlit("        ");
        assert("        "@ =~= spaces(8));
    }
    let n = ts_text.unicode_len();
    let mut s = String::from_str("        ");
    let mut i: usize = 0;
    while i < n
        invariant
            i <= n,
            s@ =~= spaces((8 + i) as nat),
        decreases n - i,
    {
        proof {
            reveal_strlit(" ");
        }
        s.append(" ");
        proof {
            assert(s@ =~= spaces((8 + i + 1) as nat));
        }
        i += 1;
    }
    proof {
        assert(s@ =~= spaces(ts_text@.len() + label_width() + 2));
    }
    s
}

/// One continuation line: indent, glyph, space, content.
fn cont_line(indent: &str, glyph: &str, content: &str) -> (r: String)
    ensures
        r@ == indent@ + glyph@ + seq![' '] + content@,
{
    proof {
        reveal_strlit(" ");
        assert(" "@ =~= seq![' ']);
    }
    let mut s = String::from_str(indent);
    s.append(glyph);
    s.append(" ");
    s.append(content);
    proof {
        assert(s@ =~= indent@ + glyph@ + seq![' '] + content@);
    }
    s
}

/// The content of the value-dump line with one-based index `idx`.
fn value_content(idx: usize, line: &str) -> (r: String)
    ensures
        r@ == value_content_chars(idx as nat, line@),
{
    proof {
        reveal_strlit("[");
        reveal_strlit("] ");
        assert("["@ =~= seq!['[']);
        assert("] "@ =~= seq![']', ' ']);
    }
    let mut s = String::from_str("[");
    let d = dec_usize(idx);
    s.append(d.as_str());
    s.append("] ");
    s.append(line);
    proof {
        assert(s@ =~= value_content_chars(idx as nat, line@));
    }
    s
}

/// Renders the block form of a log event: the header, an optional
/// call-site line, and one line per line of the attached value's text.
pub fn render_block(
    level: LogLevel,
    message: &str,
    tag: &str,
    emit_call_site: bool,
    call_site: &str,
    attached: Option<&str>,
    ts: &Timestamp,
) -> (r: Vec<String>)
    ensures
        is_rendered_block(
            level,
            tag@,
            message@,
            emit_call_site,
            call_site@,
            opt_chars(attached),
            *ts,
            views_of(r@),
        ),
        r@.len() >= 1,
{
    let con = Connectors::default();
    let ts_text = format_timestamp(ts, true);
    let indent = indent_for(ts_text.as_str());
    proof {
        assert(indent@ == cont_indent(*ts));
    }
    let header = render_line(level, message, tag, ts, true, con.block_start);
    let mut outs: Vec<String> = Vec::new();
    outs.push(header);

    let site_on = emit_call_site && call_site.unicode_len() > 0;
    let vlines: Vec<String> = match attached {
        Option::Some(s) => split_lines(s),
        Option::None => Vec::new(),
    };
    let n = vlines.len();
    let ghost vls = block_value_lines(opt_chars(attached));
    let ghost site_base: int = if site_on {
        1
    } else {
        0
    };
    proof {
        assert(views_of(vlines@) =~~= vls);
        assert(site_on == has_call_site(emit_call_site, call_site@));
        assert(forall|k: int|
            0 <= k < outs@.len() ==> #[trigger] views_of(outs@)[k] == outs@[k]@);
    }

    if site_on {
        let styled = dim_italic(call_site);
        let g = if n == 0 {
            con.block_end
        } else {
            con.block_line
        };
        let line = cont_line(indent.as_str(), g, styled.as_str());
        outs.push(line);
        proof {
            assert(is_site_line(*ts, cont_glyph(0, site_base + n as int), call_site@, outs@[1]@));
        }
    }

    let mut j: usize = 0;
    while j < n
        invariant
            j <= n,
            n == vls.len(),
            vls == views_of(vlines@),
            n == vlines@.len(),
            indent@ == cont_indent(*ts),
            con.wf(),
            site_base == (if site_on {
                1int
            } else {
                0int
            }),
            site_on == has_call_site(emit_call_site, call_site@),
            outs@.len() == 1 + site_base + j,
            is_rendered_line(level, tag@, message@, *ts, true, glyph_start(), outs@[0]@),
            site_on ==> is_site_line(
                *ts,
                cont_glyph(0, site_base + n as int),
                call_site@,
                outs@[1]@,
            ),
            forall|k: int|
                0 <= k < j ==> is_value_line(
                    *ts,
                    cont_glyph(site_base + k, site_base + n as int),
                    k,
                    vls[k],
                    #[trigger] outs@[1 + site_base + k]@,
                ),
        decreases n - j,
    {
        let idx = j + 1;
        let content = value_content(idx, vlines[j].as_str());
        let rendered = if idx <= 4 {
            content
        } else {
            dim(content.as_str())
        };
        let g = if j == n - 1 {
            con.block_end
        } else {
            con.block_line
        };
        let line = cont_line(indent.as_str(), g, rendered.as_str());
        outs.push(line);
        proof {
            assert(views_of(vlines@)[j as int] == vlines@[j as int]@);
            assert(is_value_line(
                *ts,
                cont_glyph(site_base + j, site_base + n as int),
                j as int,
                vls[j as int],
                outs@[1 + site_base + j]@,
            ));
        }
        j += 1;
    }
    proof {
        let m = views_of(outs@);
        assert(m.len() == outs@.len());
        assert(m[0] == outs@[0]@);
        if site_on {
            assert(m[1] == outs@[1]@);
        }
        assert forall|k: int| 0 <= k < n implies is_value_line(
            *ts,
            cont_glyph(site_base + k, site_base + n as int),
            k,
            vls[k],
            #[trigger] m[1 + site_base + k],
        ) by {
            assert(m[1 + site_base + k] == outs@[1 + site_base + k]@);
        }
        assert(is_rendered_block(
            level,
            tag@,
            message@,
            emit_call_site,
            call_site@,
            opt_chars(attached),
            *ts,
            m,
        ));
    }
    outs
}

} // verus!
