//! Small verified text utilities shared by the parsing and reporting code:
//! character classes, string equality, and decimal rendering of integers.
use vstd::prelude::*;

verus! {

/// The whitespace characters — the Unicode White_Space set. They separate
/// a digest from a filename in a hash manifest line, and they are trimmed
/// off filenames and colour components.
pub open spec fn is_blank(c: char) -> bool {
    ||| c == ' '
    ||| ('\u{9}' <= c && c <= '\u{D}')
    ||| c == '\u{85}'
    ||| c == '\u{A0}'
    ||| c == '\u{1680}'
    ||| ('\u{2000}' <= c && c <= '\u{200A}')
    ||| c == '\u{2028}'
    ||| c == '\u{2029}'
    ||| c == '\u{202F}'
    ||| c == '\u{205F}'
    ||| c == '\u{3000}'
}

/// Executable test for [`is_blank`].
pub fn blank_char(c: char) -> (r: bool)
    ensures
        r == is_blank(c),
{
    c == ' ' || ('\u{9}' <= c && c <= '\u{D}') || c == '\u{85}' || c == '\u{A0}' || c == '\u{1680}'
        || ('\u{2000}' <= c && c <= '\u{200A}') || c == '\u{2028}' || c == '\u{2029}' || c
        == '\u{202F}' || c == '\u{205F}' || c == '\u{3000}'
}

/// Leading blanks removed.
pub open spec fn trim_blanks(l: Seq<char>) -> Seq<char>
    decreases l.len(),
{
    if l.len() > 0 && is_blank(l.first()) {
        trim_blanks(l.drop_first())
    } else {
        l
    }
}

/// Where the first `t` characters are blanks, trimming skips them.
pub proof fn lemma_trim_blanks_skip(l: Seq<char>, t: int)
    requires
        0 <= t <= l.len(),
        forall|k: int| 0 <= k < t ==> is_blank(l[k]),
    ensures
        trim_blanks(l) == trim_blanks(l.skip(t)),
    decreases t,
{
    if t > 0 {
        lemma_trim_blanks_skip(l, t - 1);
        assert(l.skip(t - 1).len() > 0);
        assert(l.skip(t - 1).first() == l[t - 1]);
        assert(is_blank(l.skip(t - 1).first()));
        assert(trim_blanks(l.skip(t - 1)) == trim_blanks(l.skip(t - 1).drop_first()));
        assert(l.skip(t - 1).drop_first() =~= l.skip(t));
    } else {
        assert(l.skip(0) =~= l);
    }
}

/// Trailing blanks removed.
pub open spec fn trim_blanks_end(l: Seq<char>) -> Seq<char>
    decreases l.len(),
{
    if l.len() > 0 && is_blank(l.last()) {
        trim_blanks_end(l.drop_last())
    } else {
        l
    }
}

/// Where everything from `m` on is blank and the character before `m` is
/// not, trimming the end keeps exactly the first `m` characters.
pub proof fn lemma_trim_blanks_end_take(l: Seq<char>, m: int)
    requires
        0 <= m <= l.len(),
        forall|k: int| m <= k < l.len() ==> is_blank(l[k]),
        m > 0 ==> !is_blank(l[m - 1]),
    ensures
        trim_blanks_end(l) == l.take(m),
    decreases l.len(),
{
    if l.len() > m {
        assert(is_blank(l.last()));
        lemma_trim_blanks_end_take(l.drop_last(), m);
    } else {
        assert(l.take(m) =~= l);
    }
}

/// Both ends trimmed of blanks.
pub open spec fn trim_ends(l: Seq<char>) -> Seq<char> {
    trim_blanks_end(trim_blanks(l))
}

/// Character-by-character string equality, usable where the contracts speak
/// of the views of both strings.
pub fn str_eq(a: &str, b: &str) -> (r: bool)
    ensures
        r == (a@ == b@),
{
    let alen = a.unicode_len();
    let blen = b.unicode_len();
    if alen != blen {
        return false;
    }
    let mut i: usize = 0;
    while i < alen
        invariant
            alen == a@.len(),
            blen == b@.len(),
            alen == blen,
            i <= alen,
            forall|j: int| 0 <= j < i ==> a@[j] == b@[j],
        decreases alen - i,
    {
        if a.get_char(i) != b.get_char(i) {
            return false;
        }
        i += 1;
    }
    proof {
        assert(a@ =~= b@);
    }
    true
}

/// The decimal digit character for a value below ten.
pub open spec fn dec_digit(d: nat) -> char {
    if d == 0 {
        '0'
    } else if d == 1 {
        '1'
    } else if d == 2 {
        '2'
    } else if d == 3 {
        '3'
    } else if d == 4 {
        '4'
    } else if d == 5 {
        '5'
    } else if d == 6 {
        '6'
    } else if d == 7 {
        '7'
    } else if d == 8 {
        '8'
    } else {
        '9'
    }
}

/// The usual decimal rendering of a natural number, without leading zeros
/// (a single zero for the number zero).
pub open spec fn dec_of(n: nat) -> Seq<char>
    decreases n,
{
    if n < 10 {
        seq![dec_digit(n)]
    } else {
        dec_of(n / 10) + seq![dec_digit(n % 10)]
    }
}

/// A one-character string for a single decimal digit.
fn digit_str(d: u8) -> (r: &'static str)
    requires
        d < 10,
    ensures
        r@ == seq![dec_digit(d as nat)],
{
    proof {
        reveal_strlit("0");
        reveal_strlit("1");
        reveal_strlit("2");
        reveal_strlit("3");
        reveal_strlit("4");
        reveal_strlit("5");
        reveal_strlit("6");
        reveal_strlit("7");
        reveal_strlit("8");
        reveal_strlit("9");
    }
    match d {
        0 => "0",
        1 => "1",
        2 => "2",
        3 => "3",
        4 => "4",
        5 => "5",
        6 => "6",
        7 => "7",
        8 => "8",
        _ => "9",
    }
}

/// Renders an unsigned integer in decimal.
pub fn u64_to_dec(n: u64) -> (r: String)
    ensures
        r@ == dec_of(n as nat),
    decreases n,
{
    if n < 10 {
        String::from_str(digit_str(n as u8))
    } else {
        let mut s = u64_to_dec(n / 10);
        s.append(digit_str((n % 10) as u8));
        s
    }
}

} // verus!
