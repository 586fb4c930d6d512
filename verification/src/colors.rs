//! Inline colour markup for the log feed: `$[r,g,b]` opens a coloured run,
//! `$[reset]` returns to the default, and everything else is literal text.
//! The parser cuts a line into segments, each carrying the colour in force.
use vstd::prelude::*;

use crate::text::{
    blank_char,
    is_blank,
    lemma_trim_blanks_skip,
    lemma_trim_blanks_end_take,
    str_eq,
    trim_blanks,
    trim_ends,
};

verus! {

/// A red, green, blue triple.
pub type Rgb = (u8, u8, u8);

/// Whether a colour marker `$[` opens at position `k`.
pub open spec fn marker_at(s: Seq<char>, k: int) -> bool {
    &&& 0 <= k
    &&& k + 1 < s.len()
    &&& s[k] == '$'
    &&& s[k + 1] == '['
}

/// Index of the first colour marker, or the length when there is none.
pub open spec fn first_marker(s: Seq<char>) -> int
    decreases s.len(),
{
    if s.len() < 2 {
        s.len() as int
    } else if s.first() == '$' && s[1] == '[' {
        0
    } else {
        1 + first_marker(s.drop_first())
    }
}

/// Index of the first closing bracket, or the length when there is none.
pub open spec fn first_rbracket(s: Seq<char>) -> int
    decreases s.len(),
{
    if s.len() == 0 {
        0
    } else if s.first() == ']' {
        0
    } else {
        1 + first_rbracket(s.drop_first())
    }
}

/// Index of the first comma, or the length when there is none.
pub open spec fn first_comma(s: Seq<char>) -> int
    decreases s.len(),
{
    if s.len() == 0 {
        0
    } else if s.first() == ',' {
        0
    } else {
        1 + first_comma(s.drop_first())
    }
}

/// The pieces of a text split at commas; a text without one is a single
/// piece, so there is always one piece more than there are commas.
pub open spec fn split_commas(s: Seq<char>) -> Seq<Seq<char>>
    decreases s.len(),
{
    let i = first_comma(s);
    if 0 <= i < s.len() {
        seq![s.take(i)] + split_commas(s.skip(i + 1))
    } else {
        seq![s]
    }
}

/// Whether a character is a decimal digit.
pub open spec fn is_digit(c: char) -> bool {
    c == '0' || c == '1' || c == '2' || c == '3' || c == '4' || c == '5' || c == '6' || c == '7'
        || c == '8' || c == '9'
}

/// The value of a decimal digit; zero for anything else.
pub open spec fn digit_of(c: char) -> nat {
    if c == '1' {
        1
    } else if c == '2' {
        2
    } else if c == '3' {
        3
    } else if c == '4' {
        4
    } else if c == '5' {
        5
    } else if c == '6' {
        6
    } else if c == '7' {
        7
    } else if c == '8' {
        8
    } else if c == '9' {
        9
    } else {
        0
    }
}

/// The number a digit string denotes.
pub open spec fn digits_val(d: Seq<char>) -> nat
    decreases d.len(),
{
    if d.len() == 0 {
        0
    } else {
        digits_val(d.drop_last()) * 10 + digit_of(d.last())
    }
}

/// The digits a colour component is read from: the text trimmed of blanks,
/// less one leading plus sign.
pub open spec fn u8_body(t: Seq<char>) -> Seq<char> {
    let w = trim_ends(t);
    if w.len() > 0 && w.first() == '+' {
        w.drop_first()
    } else {
        w
    }
}

/// How a colour component is read: the text is trimmed of blanks, may carry
/// one leading plus sign, and must then be one or more digits denoting a
/// value that fits a byte.
pub open spec fn parse_u8(t: Seq<char>) -> Option<u8> {
    let body = u8_body(t);
    if body.len() > 0 && (forall|i: int| 0 <= i < body.len() ==> is_digit(body[i])) && digits_val(
        body,
    ) <= 255 {
        Some(digits_val(body) as u8)
    } else {
        None
    }
}

/// What a directive between `$[` and `]` does to the colour in force:
/// `reset` clears it, a well-formed triple replaces it, anything else
/// leaves it as it was.
pub open spec fn color_directive(cs: Seq<char>, cur: Option<Rgb>) -> Option<Rgb> {
    if cs == "reset"@ {
        None
    } else {
        let parts = split_commas(cs);
        if parts.len() == 3 {
            match (parse_u8(parts[0]), parse_u8(parts[1]), parse_u8(parts[2])) {
                (Some(r), Some(g), Some(b)) => Some((r, g, b)),
                _ => cur,
            }
        } else {
            cur
        }
    }
}

/// The segments of a marked-up text, given the colour in force when it
/// starts: text up to a marker keeps the current colour, a terminated
/// directive switches it, and a text without a marker — or with an
/// unterminated one — is one literal segment.
pub open spec fn segments_from(s: Seq<char>, cur: Option<Rgb>) -> Seq<(Seq<char>, Option<Rgb>)>
    decreases s.len(),
{
    let m = first_marker(s);
    if !(0 <= m < s.len()) {
        if s.len() > 0 {
            seq![(s, cur)]
        } else {
            Seq::empty()
        }
    } else {
        let e = m + 2 + first_rbracket(s.skip(m + 2));
        if !(m + 2 <= e < s.len()) {
            seq![(s, cur)]
        } else {
            let next = color_directive(s.subrange(m + 2, e), cur);
            let head: Seq<(Seq<char>, Option<Rgb>)> = if m > 0 {
                seq![(s.take(m), cur)]
            } else {
                Seq::empty()
            };
            head + segments_from(s.skip(e + 1), next)
        }
    }
}

/// The segments of a whole line, starting with no colour in force.
pub open spec fn spec_color_segments(s: Seq<char>) -> Seq<(Seq<char>, Option<Rgb>)> {
    segments_from(s, None)
}

// ---------------------------------------------------------------------------
// Scanning lemmas: what a forward scan establishes about the first-index
// functions above.
// ---------------------------------------------------------------------------

proof fn lemma_first_marker_at(s: Seq<char>, j: int)
    requires
        0 <= j <= s.len(),
        forall|k: int| 0 <= k < j ==> !marker_at(s, k),
        j < s.len() ==> marker_at(s, j),
    ensures
        first_marker(s) == j || (j == s.len() && first_marker(s) >= s.len()),
    decreases s.len(),
{
    if s.len() >= 2 && j > 0 {
        let d = s.drop_first();
        assert(!marker_at(s, 0));
        assert forall|k: int| 0 <= k < j - 1 implies !marker_at(d, k) by {
            if marker_at(d, k) {
                assert(d[k] == s[k + 1]);
                assert(d[k + 1] == s[k + 2]);
                assert(marker_at(s, k + 1));
            }
        }
        if j - 1 < d.len() {
            assert(marker_at(s, j));
            assert(d[j - 1] == s[j]);
            assert(d[j] == s[j + 1]);
            assert(marker_at(d, j - 1));
        }
        lemma_first_marker_at(d, j - 1);
        assert(first_marker(s) == 1 + first_marker(d));
    }
}

proof fn lemma_first_rbracket_at(s: Seq<char>, j: int)
    requires
        0 <= j <= s.len(),
        forall|k: int| 0 <= k < j ==> s[k] != ']',
        j < s.len() ==> s[j] == ']',
    ensures
        first_rbracket(s) == j,
    decreases s.len(),
{
    if s.len() > 0 && j > 0 {
        lemma_first_rbracket_at(s.drop_first(), j - 1);
    }
}

proof fn lemma_first_comma_at(s: Seq<char>, j: int)
    requires
        0 <= j <= s.len(),
        forall|k: int| 0 <= k < j ==> s[k] != ',',
        j < s.len() ==> s[j] == ',',
    ensures
        first_comma(s) == j,
    decreases s.len(),
{
    if s.len() > 0 && j > 0 {
        lemma_first_comma_at(s.drop_first(), j - 1);
    }
}

/// Splitting yields at least one piece.
proof fn lemma_split_commas_nonempty(s: Seq<char>)
    ensures
        split_commas(s).len() >= 1,
{
}

/// A longer digit string never denotes a smaller number.
proof fn lemma_digits_val_take(d: Seq<char>, k: int)
    requires
        0 <= k <= d.len(),
    ensures
        digits_val(d.take(k)) <= digits_val(d),
    decreases d.len(),
{
    if k < d.len() {
        lemma_digits_val_take(d.drop_last(), k);
        assert(d.drop_last().take(k) =~= d.take(k));
    } else {
        assert(d.take(k) =~= d);
    }
}

// ---------------------------------------------------------------------------
// The executable parser.
// ---------------------------------------------------------------------------

/// Reads one decimal digit.
fn digit_char(c: char) -> (r: Option<u8>)
    ensures
        r is Some <==> is_digit(c),
        r matches Some(d) ==> d == digit_of(c),
{
    match c {
        '0' => Some(0),
        '1' => Some(1),
        '2' => Some(2),
        '3' => Some(3),
        '4' => Some(4),
        '5' => Some(5),
        '6' => Some(6),
        '7' => Some(7),
        '8' => Some(8),
        '9' => Some(9),
        _ => None,
    }
}

/// Reads one colour component, as [`parse_u8`] says.
fn parse_u8_part(part: &str) -> (r: Option<u8>)
    ensures
        r == parse_u8(part@),
{
    let len = part.unicode_len();
    let mut lo: usize = 0;
    while lo < len && blank_char(part.get_char(lo))
        invariant
            len == part@.len(),
            lo <= len,
            forall|k: int| 0 <= k < lo ==> is_blank(part@[k]),
        decreases len - lo,
    {
        lo += 1;
    }
    let mut hi: usize = len;
    while hi > lo && blank_char(part.get_char(hi - 1))
        invariant
            len == part@.len(),
            lo <= hi <= len,
            forall|k: int| hi <= k < len ==> is_blank(part@[k]),
        decreases hi,
    {
        hi -= 1;
    }
    proof {
        lemma_trim_blanks_skip(part@, lo as int);
        let u = part@.skip(lo as int);
        if lo < len {
            assert(u.first() == part@[lo as int]);
        }
        assert(trim_blanks(u) =~= u);
        assert(forall|k: int| hi - lo <= k < u.len() ==> is_blank(#[trigger] u[k]));
        if hi > lo {
            assert(u[hi - lo - 1] == part@[hi - 1]);
        }
        lemma_trim_blanks_end_take(u, hi - lo);
        assert(trim_ends(part@) =~= part@.subrange(lo as int, hi as int));
    }
    // The trimmed component is part[lo..hi); skip one leading plus sign.
    let mut b: usize = lo;
    if lo < hi && part.get_char(lo) == '+' {
        b = lo + 1;
    }
    let ghost body = part@.subrange(b as int, hi as int);
    proof {
        let w = trim_ends(part@);
        if w.len() > 0 {
            assert(w.first() == part@[lo as int]);
        }
        if w.len() > 0 && w.first() == '+' {
            assert(w.drop_first() =~= body);
        } else {
            assert(w =~= body);
        }
    }
    if b == hi {
        return None;
    }
    let mut acc: u16 = 0;
    let mut i: usize = b;
    proof {
        assert(body.take(0) =~= Seq::<char>::empty());
    }
    while i < hi
        invariant
            len == part@.len(),
            b <= i <= hi <= len,
            b < hi,
            body == part@.subrange(b as int, hi as int),
            body == u8_body(part@),
            acc <= 255,
            acc == digits_val(body.take(i - b)),
            forall|k: int| 0 <= k < i - b ==> is_digit(body[k]),
        decreases hi - i,
    {
        let d = match digit_char(part.get_char(i)) {
            Some(d) => d,
            None => {
                proof {
                    assert(body[i - b] == part@[i as int]);
                    assert(!is_digit(body[i - b]));
                }
                return None;
            },
        };
        proof {
            assert(body[i - b] == part@[i as int]);
            assert(body.take(i - b + 1).drop_last() =~= body.take(i - b));
            assert(body.take(i - b + 1).last() == body[i - b]);
        }
        acc = acc * 10 + d as u16;
        i += 1;
        if acc > 255 {
            proof {
                lemma_digits_val_take(body, i - b);
            }
            return None;
        }
    }
    proof {
        assert(body.take((hi - b) as int) =~= body);
    }
    Some(acc as u8)
}

/// Applies one directive to the colour in force, as [`color_directive`]
/// says.
fn apply_directive(cs: &str, cur: Option<Rgb>) -> (r: Option<Rgb>)
    ensures
        r == color_directive(cs@, cur),
{
    if str_eq(cs, "reset") {
        return None;
    }
    let len = cs.unicode_len();
    // Find the first comma.
    let mut c1: usize = 0;
    while c1 < len && cs.get_char(c1) != ','
        invariant
            len == cs@.len(),
            c1 <= len,
            forall|k: int| 0 <= k < c1 ==> cs@[k] != ',',
        decreases len - c1,
    {
        c1 += 1;
    }
    proof {
        lemma_first_comma_at(cs@, c1 as int);
    }
    if c1 == len {
        // A single piece: not a triple.
        return cur;
    }
    // Find the second comma.
    let mut c2: usize = c1 + 1;
    while c2 < len && cs.get_char(c2) != ','
        invariant
            len == cs@.len(),
            c1 + 1 <= c2 <= len,
            forall|k: int| c1 + 1 <= k < c2 ==> cs@[k] != ',',
        decreases len - c2,
    {
        c2 += 1;
    }
    proof {
        let u = cs@.skip(c1 + 1);
        assert(forall|k: int| 0 <= k < c2 - (c1 + 1) ==> #[trigger] u[k] != ',');
        if c2 < len {
            assert(u[c2 - (c1 + 1)] == cs@[c2 as int]);
        }
        lemma_first_comma_at(u, c2 - (c1 + 1));
    }
    if c2 == len {
        // Two pieces: not a triple.
        proof {
            let u = cs@.skip(c1 + 1);
            assert(split_commas(cs@) =~= seq![cs@.take(c1 as int)] + split_commas(u));
            assert(split_commas(u) =~= seq![u]);
        }
        return cur;
    }
    // There must be no third comma.
    let mut c3: usize = c2 + 1;
    while c3 < len && cs.get_char(c3) != ','
        invariant
            len == cs@.len(),
            c2 + 1 <= c3 <= len,
            forall|k: int| c2 + 1 <= k < c3 ==> cs@[k] != ',',
        decreases len - c3,
    {
        c3 += 1;
    }
    proof {
        let u = cs@.skip(c1 + 1);
        let v = cs@.skip(c2 + 1);
        assert(forall|k: int| 0 <= k < c3 - (c2 + 1) ==> #[trigger] v[k] != ',');
        if c3 < len {
            assert(v[c3 - (c2 + 1)] == cs@[c3 as int]);
        }
        lemma_first_comma_at(v, c3 - (c2 + 1));
        assert(u.skip(c2 - c1) =~= v);
        assert(u.take(c2 - (c1 + 1)) =~= cs@.subrange(c1 + 1, c2 as int));
        assert(split_commas(cs@) =~= seq![cs@.take(c1 as int)] + split_commas(u));
        assert(first_comma(u) == c2 - (c1 + 1));
        assert(split_commas(u) =~= seq![cs@.subrange(c1 + 1, c2 as int)] + split_commas(v));
    }
    if c3 < len {
        // Four or more pieces: not a triple.
        proof {
            let v = cs@.skip(c2 + 1);
            lemma_split_commas_nonempty(v.skip(c3 - (c2 + 1) + 1));
            assert(split_commas(v) =~= seq![v.take(c3 - (c2 + 1))] + split_commas(
                v.skip(c3 - (c2 + 1) + 1),
            ));
            assert(split_commas(v).len() >= 2);
            assert(split_commas(cs@).len() >= 4);
        }
        return cur;
    }
    proof {
        let v = cs@.skip(c2 + 1);
        assert(split_commas(v) =~= seq![v]);
        assert(split_commas(cs@) =~= seq![
            cs@.take(c1 as int),
            cs@.subrange(c1 + 1, c2 as int),
            v,
        ]);
    }
    let p0 = cs.substring_char(0, c1);
    let p1 = cs.substring_char(c1 + 1, c2);
    let p2 = cs.substring_char(c2 + 1, len);
    let r0 = parse_u8_part(p0);
    let r1 = parse_u8_part(p1);
    let r2 = parse_u8_part(p2);
    match (r0, r1, r2) {
        (Some(r), Some(g), Some(b)) => Some((r, g, b)),
        _ => cur,
    }
}

/// Cuts a marked-up line into its segments, each with the colour in force,
/// as [`spec_color_segments`] says.
pub fn parse_color_str(text: &str) -> (r: Vec<(String, Option<Rgb>)>)
    ensures
        r@.map_values(|e: (String, Option<Rgb>)| (e.0@, e.1)) == spec_color_segments(text@),
{
    let len = text.unicode_len();
    let mut out: Vec<(String, Option<Rgb>)> = Vec::new();
    let mut cur: Option<Rgb> = None;
    let mut start: usize = 0;
    proof {
        assert(text@.skip(0) == text@);
        assert(out@.map_values(|e: (String, Option<Rgb>)| (e.0@, e.1)) =~= Seq::empty());
    }
    loop
        invariant
            len == text@.len(),
            start <= len,
            spec_color_segments(text@) == out@.map_values(|e: (String, Option<Rgb>)| (e.0@, e.1))
                + segments_from(text@.skip(start as int), cur),
        decreases len - start,
    {
        let ghost u = text@.skip(start as int);
        // Look for the next marker.
        let mut m: usize = start;
        while len - m > 1 && !(text.get_char(m) == '$' && text.get_char(m + 1) == '[')
            invariant
                len == text@.len(),
                start <= m <= len,
                forall|k: int| start <= k < m ==> !marker_at(text@, k),
            decreases len - m,
        {
            proof {
                assert(!marker_at(text@, m as int));
            }
            m += 1;
        }
        let found_marker = len - m > 1;
        proof {
            assert(forall|k: int|
                0 <= k < u.len() ==> (marker_at(u, k) <==> marker_at(text@, start + k)));
            if found_marker {
                lemma_first_marker_at(u, m - start);
            } else {
                assert(forall|k: int| start <= k < len ==> !marker_at(text@, k));
                lemma_first_marker_at(u, u.len() as int);
            }
        }
        if !found_marker {
            // No further marker: the rest, if any, is one literal segment.
            if start < len {
                let rest = text.substring_char(start, len);
                let ghost old_out = out@;
                out.push((rest.to_owned(), cur));
                proof {
                    assert(rest@ =~= u);
                    assert(out@.map_values(|e: (String, Option<Rgb>)| (e.0@, e.1)) =~= old_out
                        .map_values(|e: (String, Option<Rgb>)| (e.0@, e.1)).push((u, cur)));
                    assert(segments_from(u, cur) =~= seq![(u, cur)]);
                }
            }
            proof {
                if start == len {
                    assert(segments_from(u, cur) =~= Seq::empty());
                }
                assert(spec_color_segments(text@) =~= out@.map_values(
                    |e: (String, Option<Rgb>)| (e.0@, e.1),
                ));
            }
            return out;
        }
        // Look for the closing bracket after the marker.
        let mut e: usize = m + 2;
        while e < len && text.get_char(e) != ']'
            invariant
                len == text@.len(),
                m + 2 <= e <= len,
                forall|k: int| m + 2 <= k < e ==> text@[k] != ']',
            decreases len - e,
        {
            e += 1;
        }
        proof {
            let w = text@.skip(m + 2);
            assert(forall|k: int| 0 <= k < e - (m + 2) ==> #[trigger] w[k] != ']');
            if e < len {
                assert(w[e - (m + 2)] == text@[e as int]);
            }
            lemma_first_rbracket_at(w, e - (m + 2));
            assert(u.skip((m - start) + 2) =~= w);
        }
        if e == len {
            // Unterminated marker: the rest is one literal segment.
            let rest = text.substring_char(start, len);
            let ghost old_out = out@;
            out.push((rest.to_owned(), cur));
            proof {
                assert(rest@ =~= u);
                assert(out@.map_values(|e: (String, Option<Rgb>)| (e.0@, e.1)) =~= old_out
                    .map_values(|e: (String, Option<Rgb>)| (e.0@, e.1)).push((u, cur)));
                assert(segments_from(u, cur) =~= seq![(u, cur)]);
                assert(spec_color_segments(text@) =~= out@.map_values(
                    |e: (String, Option<Rgb>)| (e.0@, e.1),
                ));
            }
            return out;
        }
        // A terminated directive: push the text before it, apply it, and
        // carry on after the bracket.
        if start < m {
            let head = text.substring_char(start, m);
            let ghost old_out = out@;
            out.push((head.to_owned(), cur));
            proof {
                assert(head@ =~= u.take((m - start) as int));
                assert(out@.map_values(|e: (String, Option<Rgb>)| (e.0@, e.1)) =~= old_out
                    .map_values(|e: (String, Option<Rgb>)| (e.0@, e.1)).push(
                    (u.take((m - start) as int), cur),
                ));
            }
        }
        let cs = text.substring_char(m + 2, e);
        proof {
            assert(cs@ =~= u.subrange((m - start) + 2, (e - start) as int));
            assert(u.skip((e - start) + 1) =~= text@.skip(e + 1));
        }
        cur = apply_directive(cs, cur);
        start = e + 1;
    }
}

} // verus!
