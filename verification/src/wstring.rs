//! Wide strings for the platform's calls: text encoded as UTF-16 code
//! units with a terminating zero unit.
use vstd::prelude::*;

verus! {

/// The UTF-16 code units of one character: one unit below the supplement
/// planes, else a surrogate pair.
pub open spec fn utf16_units(c: char) -> Seq<u16> {
    let v = c as u32;
    if v < 0x10000 {
        seq![v as u16]
    } else {
        seq![
            (0xD800 + (((v - 0x10000) as u32) / 0x400)) as u16,
            (0xDC00 + (((v - 0x10000) as u32) % 0x400)) as u16,
        ]
    }
}

/// The UTF-16 encoding of a character sequence.
pub open spec fn utf16_of(s: Seq<char>) -> Seq<u16>
    decreases s.len(),
{
    if s.len() == 0 {
        Seq::empty()
    } else {
        utf16_units(s.first()) + utf16_of(s.drop_first())
    }
}

/// A zero-terminated UTF-16 rendering of a piece of text, ready to hand to
/// a platform call.
pub struct Wstring {
    units: Vec<u16>,
}

impl Wstring {
    /// The code units the value holds, terminator included.
    pub closed spec fn view(self) -> Seq<u16> {
        self.units@
    }

    /// Encodes a piece of text, appending the terminating zero unit.
    pub fn new(s: &str) -> (w: Wstring)
        ensures
            w@ == utf16_of(s@) + seq![0u16],
    {
        broadcast use vstd::utf8::char_is_scalar;

        let len = s.unicode_len();
        let mut units: Vec<u16> = Vec::new();
        let mut i: usize = 0;
        proof {
            assert(s@.skip(0) == s@);
            assert(utf16_of(s@) == units@ + utf16_of(s@.skip(0)));
        }
        while i < len
            invariant
                len == s@.len(),
                i <= len,
                utf16_of(s@) == units@ + utf16_of(s@.skip(i as int)),
            decreases len - i,
        {
            proof {
                assert(s@.skip(i as int).first() == s@[i as int]);
                assert(s@.skip(i as int).drop_first() =~= s@.skip(i + 1));
            }
            let c = s.get_char(i);
            let v = c as u32;
            let ghost before = units@;
            if v < 0x10000 {
                units.push(v as u16);
                proof {
                    assert(units@ =~= before + utf16_units(c));
                }
            } else {
                let w = v - 0x10000;
                units.push((0xD800 + w / 0x400) as u16);
                units.push((0xDC00 + w % 0x400) as u16);
                proof {
                    assert(units@ =~= before + utf16_units(c));
                }
            }
            proof {
                assert(units@ + utf16_of(s@.skip(i + 1)) =~= before + utf16_units(c) + utf16_of(
                    s@.skip(i + 1),
                ));
                assert(before + utf16_units(c) + utf16_of(s@.skip(i + 1)) =~= before + (utf16_units(
                    c,
                ) + utf16_of(s@.skip(i + 1))));
            }
            i += 1;
        }
        proof {
            assert(utf16_of(s@.skip(len as int)) =~= Seq::empty());
            assert(units@ =~= utf16_of(s@));
        }
        units.push(0);
        let ghost done = units@;
        proof {
            assert(done =~= utf16_of(s@) + seq![0u16]);
        }
        Wstring { units }
    }

    /// The code units, for the platform call that consumes them.
    pub fn as_units(&self) -> (r: &[u16])
        ensures
            r@ == self@,
    {
        self.units.as_slice()
    }
}

} // verus!
