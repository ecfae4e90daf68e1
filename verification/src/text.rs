//! Plain-text building blocks: runs of spaces, right-padding of short
//! labels, and decimal rendering of numbers.

use vstd::prelude::*;
use vstd::string::*;
use pad::{Alignment, PadStr};

verus! {

/// A run of `n` space characters.
pub open spec fn spaces(n: nat) -> Seq<char> {
    Seq::new(n, |i: int| ' ')
}

/// `s` padded on the right with spaces up to `w` characters; a string of
/// `w` or more characters is kept as it is.
pub open spec fn pad_right_chars(s: Seq<char>, w: nat) -> Seq<char> {
    if s.len() >= w {
        s
    } else {
        s + spaces((w - s.len()) as nat)
    }
}

/// True when every character of `s` is printable ASCII (space through
/// tilde); such characters occupy exactly one display column.
pub open spec fn all_ascii_printable(s: Seq<char>) -> bool {
    forall|i: int| 0 <= i < s.len() ==> ' ' <= #[trigger] s[i] <= '~'
}

/// Relies on pad's `PadStr::pad_to_width_with_alignment` with left
/// alignment: a string whose display width is below `w` comes back with
/// spaces appended up to `w`, and is otherwise returned unchanged. The
/// width is measured in display columns, so the contract asks for
/// printable ASCII, where columns and characters coincide.
#[verifier::external_body]
pub(crate) fn pad_right(s: &str, w: usize) -> (r: String)
    requires
        all_ascii_printable(s@),
    ensures
        r@ == pad_right_chars(s@, w as nat),
{
    s.pad_to_width_with_alignment(w, Alignment::Left)
}

/// The character for one decimal digit.
pub open spec fn digit_char(d: nat) -> char {
    if d == 0 {
        '0'
    } else if d == 1 {
        '1'
    } else if d == 2 {
        '2'
    } else if d == 3 {
        '3'
    } else if d == 4 {
        '4'
    } else if d == 5 {
        '5'
    } else if d == 6 {
        '6'
    } else if d == 7 {
        '7'
    } else if d == 8 {
        '8'
    } else {
        '9'
    }
}

/// The decimal digits of `n`, most significant first, with no sign and no
/// leading zero (except for `n == 0` itself).
pub open spec fn dec_chars(n: nat) -> Seq<char>
    decreases n,
{
    if n < 10 {
        seq![digit_char(n)]
    } else {
        dec_chars(n / 10) + seq![digit_char(n % 10)]
    }
}

fn digit_str(d: u32) -> (r: &'static str)
    requires
        d < 10,
    ensures
        r@ == seq![digit_char(d as nat)],
{
    proof {
        reveal_strlit("0");
        reveal_strlit("1");
        reveal_strlit("2");
        reveal_strlit("3");
        reveal_strlit("4");
        reveal_strlit("5");
        reveal_strlit("6");
        reveal_strlit("7");
        reveal_strlit("8");
        reveal_strlit("9");
    }
    if d == 0 {
        "0"
    } else if d == 1 {
        "1"
    } else if d == 2 {
        "2"
    } else if d == 3 {
        "3"
    } else if d == 4 {
        "4"
    } else if d == 5 {
        "5"
    } else if d == 6 {
        "6"
    } else if d == 7 {
        "7"
    } else if d == 8 {
        "8"
    } else {
        "9"
    }
}

/// Renders `n` in decimal.
pub fn dec_usize(n: usize) -> (r: String)
    ensures
        r@ == dec_chars(n as nat),
    decreases n,
{
    if n < 10 {
        String::from_str(digit_str((n % 10) as u32))
    } else {
        let mut s = dec_usize(n / 10);
        s.append(digit_str((n % 10) as u32));
        s
    }
}

/// Renders `n` in decimal.
pub fn dec_u32(n: u32) -> (r: String)
    ensures
        r@ == dec_chars(n as nat),
{
    dec_usize(n as usize)
}

/// Renders `n` in decimal, zero-padded on the left to two digits; values
/// of three or more digits are rendered in full.
pub open spec fn dec2_chars(n: nat) -> Seq<char> {
    if n < 10 {
        seq!['0'] + dec_chars(n)
    } else {
        dec_chars(n)
    }
}

/// Renders `n` in decimal with at least two digits.
pub fn dec2_u32(n: u32) -> (r: String)
    ensures
        r@ == dec2_chars(n as nat),
{
    if n < 10 {
        proof {
            reveal_strlit("0");
        }
        let mut s = String::from_str("0");
        let d = dec_u32(n);
        s.append(d.as_str());
        s
    } else {
        dec_u32(n)
    }
}

/// The views of a sequence of strings.
pub open spec fn views_of(lines: Seq<String>) -> Seq<Seq<char>> {
    lines.map_values(|t: String| t@)
}

/// The lines of `s`, cut at each newline character: one more line than
/// there are newlines, so the empty text is one empty line, and a text
/// ending in a newline ends with an empty line.
pub open spec fn split_lines_chars(s: Seq<char>) -> Seq<Seq<char>>
    decreases s.len(),
{
    if s.len() == 0 {
        seq![Seq::<char>::empty()]
    } else if s[0] == '\n' {
        seq![Seq::<char>::empty()] + split_lines_chars(s.skip(1))
    } else {
        let rest = split_lines_chars(s.skip(1));
        seq![seq![s[0]] + rest[0]] + rest.skip(1)
    }
}

/// Splitting always yields at least one line.
pub proof fn lemma_split_lines_nonempty(s: Seq<char>)
    ensures
        split_lines_chars(s).len() >= 1,
    decreases s.len(),
{
    if s.len() > 0 {
        lemma_split_lines_nonempty(s.skip(1));
    }
}

/// Cutting at the first newline: if no newline stands before position
/// `k`, the lines of `s` are the text up to `k` followed by the lines of
/// what comes after the newline at `k` (or just the whole text, if `k` is
/// its end).
pub proof fn lemma_split_lines_cut(s: Seq<char>, k: int)
    requires
        0 <= k <= s.len(),
        forall|j: int| 0 <= j < k ==> s[j] != '\n',
        k < s.len() ==> s[k] == '\n',
    ensures
        k == s.len() ==> split_lines_chars(s) =~~= seq![s],
        k < s.len() ==> split_lines_chars(s) =~~= seq![s.subrange(0, k)] + split_lines_chars(
            s.skip(k + 1),
        ),
    decreases k,
{
    lemma_split_lines_nonempty(s);
    if k == 0 {
        if s.len() == 0 {
            assert(split_lines_chars(s) =~~= seq![s]);
        } else {
            assert(s[0] == '\n');
            assert(s.subrange(0, 0) =~~= Seq::<char>::empty());
            assert(split_lines_chars(s) =~~= seq![s.subrange(0, 0)] + split_lines_chars(
                s.skip(1),
            ));
        }
    } else {
        assert(s[0] != '\n');
        let t = s.skip(1);
        assert(forall|j: int| 0 <= j < k - 1 ==> #[trigger] t[j] != '\n');
        assert(k - 1 < t.len() ==> t[k - 1] == '\n');
        lemma_split_lines_cut(t, k - 1);
        lemma_split_lines_nonempty(t);
        let rest = split_lines_chars(t);
        if k == s.len() {
            assert(rest =~~= seq![t]);
            assert(seq![s[0]] + rest[0] =~~= s);
            assert(split_lines_chars(s) =~~= seq![s]);
        } else {
            assert(rest =~~= seq![t.subrange(0, k - 1)] + split_lines_chars(t.skip(k)));
            assert(seq![s[0]] + rest[0] =~~= s.subrange(0, k));
            assert(t.skip(k) =~~= s.skip(k + 1));
            assert(rest.skip(1) =~~= split_lines_chars(s.skip(k + 1)));
            assert(split_lines_chars(s) =~~= seq![s.subrange(0, k)] + split_lines_chars(
                s.skip(k + 1),
            ));
        }
    }
}

/// Cuts `s` into its lines at each newline character.
pub fn split_lines(s: &str) -> (r: Vec<String>)
    ensures
        views_of(r@) == split_lines_chars(s@),
        r@.len() >= 1,
{
    let n = s.unicode_len();
    let mut out: Vec<String> = Vec::new();
    let mut start: usize = 0;
    let mut i: usize = 0;
    proof {
        assert(s@.skip(0) =~= s@);
        assert(views_of(out@) =~~= Seq::<Seq<char>>::empty());
        assert(views_of(out@) + split_lines_chars(s@.skip(0)) =~~= split_lines_chars(s@));
    }
    while i < n
        invariant
            start <= i <= n,
            n == s@.len(),
            forall|j: int| start <= j < i ==> s@[j] != '\n',
            split_lines_chars(s@) =~~= views_of(out@) + split_lines_chars(
                s@.skip(start as int),
            ),
        decreases n - i,
    {
        let c = s.get_char(i);
        if c == '\n' {
            let piece = s.substring_char(start, i);
            out.push(String::from_str(piece));
            proof {
                let t = s@.skip(start as int);
                assert(forall|j: int|
                    0 <= j < i - start ==> #[trigger] t[j] != '\n');
                assert(t[i - start] == '\n');
                lemma_split_lines_cut(t, i - start);
                assert(t.subrange(0, i - start) =~~= s@.subrange(start as int, i as int));
                assert(t.skip(i - start + 1) =~~= s@.skip(i + 1));
                assert(views_of(out@) =~~= views_of(out@.subrange(0, out@.len() - 1)) + seq![
                    s@.subrange(start as int, i as int),
                ]);
                assert(views_of(out@) + split_lines_chars(s@.skip(i + 1))
                    =~~= split_lines_chars(s@));
            }
            start = i + 1;
        }
        i += 1;
    }
    let piece = s.substring_char(start, n);
    out.push(String::from_str(piece));
    proof {
        let t = s@.skip(start as int);
        assert(forall|j: int| 0 <= j < t.len() ==> #[trigger] t[j] != '\n');
        lemma_split_lines_cut(t, t.len() as int);
        assert(t =~~= s@.subrange(start as int, n as int));
        assert(views_of(out@) =~~= views_of(out@.subrange(0, out@.len() - 1)) + seq![t]);
        assert(views_of(out@) =~~= split_lines_chars(s@));
    }
    out
}

/// How many newline characters `s` holds.
pub open spec fn newline_count(s: Seq<char>) -> nat
    decreases s.len(),
{
    if s.len() == 0 {
        0
    } else if s[0] == '\n' {
        1 + newline_count(s.skip(1))
    } else {
        newline_count(s.skip(1))
    }
}

/// A text of N newlines splits into exactly N + 1 lines.
pub proof fn lemma_split_lines_count(s: Seq<char>)
    ensures
        split_lines_chars(s).len() == newline_count(s) + 1,
    decreases s.len(),
{
    if s.len() > 0 {
        lemma_split_lines_count(s.skip(1));
        lemma_split_lines_nonempty(s.skip(1));
    }
}

/// The lines joined with a newline between each two; no newline is added
/// after the last.
pub open spec fn join_lines_chars(lines: Seq<Seq<char>>) -> Seq<char>
    decreases lines.len(),
{
    if lines.len() == 0 {
        Seq::empty()
    } else if lines.len() == 1 {
        lines[0]
    } else {
        lines[0] + seq!['\n'] + join_lines_chars(lines.skip(1))
    }
}

/// Joining one more line appends a newline and the line.
pub proof fn lemma_join_lines_push(lines: Seq<Seq<char>>, x: Seq<char>)
    ensures
        lines.len() == 0 ==> join_lines_chars(lines.push(x)) == x,
        lines.len() > 0 ==> join_lines_chars(lines.push(x)) == join_lines_chars(lines)
            + seq!['\n'] + x,
    decreases lines.len(),
{
    if lines.len() == 0 {
        assert(lines.push(x) =~~= seq![x]);
        assert(join_lines_chars(seq![x]) == x);
    } else if lines.len() == 1 {
        assert(lines.push(x).skip(1) =~~= seq![x]);
        assert(join_lines_chars(seq![x]) == x);
        assert(join_lines_chars(lines.push(x)) == lines[0] + seq!['\n'] + x);
    } else {
        assert(lines.push(x).skip(1) =~~= lines.skip(1).push(x));
        lemma_join_lines_push(lines.skip(1), x);
        assert(join_lines_chars(lines.push(x)) =~= join_lines_chars(lines) + seq!['\n'] + x);
    }
}

/// Joins the lines with a newline between each two.
pub fn join_lines(lines: &Vec<String>) -> (r: String)
    ensures
        r@ == join_lines_chars(views_of(lines@)),
{
    proof {
        reveal_strlit("\n");
    }
    let mut s = String::new();
    let mut i: usize = 0;
    while i < lines.len()
        invariant
            i <= lines@.len(),
            s@ == join_lines_chars(views_of(lines@).take(i as int)),
        decreases lines@.len() - i,
    {
        if i > 0 {
            s.append("\n");
        }
        s.append(lines[i].as_str());
        proof {
            let m = views_of(lines@);
            reveal_strlit("\n");
            assert("\n"@ =~= seq!['\n']);
            assert(m.take(i as int).push(m[i as int]) =~~= m.take(i + 1));
            lemma_join_lines_push(m.take(i as int), m[i as int]);
            if i == 0 {
                assert(s@ =~= m[0]);
            } else {
                assert(s@ =~= join_lines_chars(m.take(i as int)) + seq!['\n'] + m[i as int]);
            }
        }
        i += 1;
    }
    proof {
        assert(views_of(lines@).take(lines@.len() as int) =~~= views_of(lines@));
    }
    s
}

} // verus!
