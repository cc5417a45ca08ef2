//! UTF-16 encoding and decoding for the host-ABI flavour: guest strings
//! are little-endian UTF-16 code units, and decoding is lossy, turning
//! lone surrogates into the replacement character.

use vstd::prelude::*;

use vstd::arithmetic::div_mod::lemma_fundamental_div_mod;
use vstd::utf8::{char_is_scalar, char_u32_cast};

use crate::strutil::{char_from_u32, push_char};

verus! {

/// Whether a code unit is a high (leading) surrogate.
pub open spec fn is_high_surrogate(u: u16) -> bool {
    0xD800 <= u < 0xDC00
}

/// Whether a code unit is a low (trailing) surrogate.
pub open spec fn is_low_surrogate(u: u16) -> bool {
    0xDC00 <= u < 0xE000
}

/// The scalar value a surrogate pair denotes.
pub open spec fn combined_scalar(hi: u16, lo: u16) -> u32 {
    (0x10000 + (hi - 0xD800) * 0x400 + (lo - 0xDC00)) as u32
}

/// The UTF-16 code units of one character.
pub open spec fn char_units(c: char) -> Seq<u16> {
    if (c as u32) < 0x10000 {
        seq![(c as u32) as u16]
    } else {
        seq![
            (0xD800 + (((c as u32) - 0x10000) / 0x400)) as u16,
            (0xDC00 + (((c as u32) - 0x10000) % 0x400)) as u16,
        ]
    }
}

/// The UTF-16 code units of a character string.
pub open spec fn utf16_encode(s: Seq<char>) -> Seq<u16>
    decreases s.len(),
{
    if s.len() == 0 {
        Seq::empty()
    } else {
        utf16_encode(s.drop_last()) + char_units(s.last())
    }
}

/// The lossy decoding of a code-unit string: a well-formed surrogate
/// pair becomes its scalar, a lone surrogate becomes U+FFFD, anything
/// else is a scalar of its own.
pub open spec fn utf16_decode(u: Seq<u16>) -> Seq<char>
    decreases u.len(),
{
    if u.len() == 0 {
        Seq::empty()
    } else if is_high_surrogate(u[0]) && u.len() >= 2 && is_low_surrogate(u[1]) {
        seq![combined_scalar(u[0], u[1]) as char] + utf16_decode(u.skip(2))
    } else if is_high_surrogate(u[0]) || is_low_surrogate(u[0]) {
        seq!['\u{FFFD}'] + utf16_decode(u.skip(1))
    } else {
        seq![(u[0] as u32) as char] + utf16_decode(u.skip(1))
    }
}

/// The little-endian bytes of a code-unit string.
pub open spec fn units_to_bytes(u: Seq<u16>) -> Seq<u8> {
    Seq::new(
        u.len() * 2,
        |i: int|
            if i % 2 == 0 {
                (u[i / 2] % 0x100) as u8
            } else {
                (u[i / 2] / 0x100) as u8
            },
    )
}

/// The code units held in a little-endian byte string; a trailing odd
/// byte is ignored.
pub open spec fn bytes_to_units(b: Seq<u8>) -> Seq<u16> {
    Seq::new(b.len() / 2, |i: int| (b[2 * i] + b[2 * i + 1] * 0x100) as u16)
}

/// Packing code units into bytes and unpacking them gives the units
/// back.
pub proof fn lemma_units_bytes_round_trip(u: Seq<u16>)
    ensures
        units_to_bytes(u).len() == u.len() * 2,
        bytes_to_units(units_to_bytes(u)) == u,
{
    let b = units_to_bytes(u);
    assert forall|i: int| 0 <= i < u.len() implies #[trigger] bytes_to_units(b)[i] == u[i] by {
        assert(b[2 * i] == (u[i] % 0x100) as u8);
        assert(b[2 * i + 1] == (u[i] / 0x100) as u8);
        lemma_fundamental_div_mod(u[i] as int, 0x100);
    }
    assert(bytes_to_units(b) =~= u);
}

/// Encoding distributes over extending a string by one character.
proof fn lemma_encode_take_step(s: Seq<char>, i: int)
    requires
        0 <= i < s.len(),
    ensures
        utf16_encode(s.take(i + 1)) == utf16_encode(s.take(i)) + char_units(s[i]),
{
    assert(s.take(i + 1).drop_last() =~= s.take(i));
    assert(s.take(i + 1).last() == s[i]);
}

/// Encoding also unfolds at the front of a string.
proof fn lemma_encode_first(s: Seq<char>)
    requires
        s.len() > 0,
    ensures
        utf16_encode(s) == char_units(s[0]) + utf16_encode(s.drop_first()),
    decreases s.len(),
{
    if s.len() == 1 {
        assert(s.drop_last() =~= Seq::<char>::empty());
        assert(s.drop_first() =~= Seq::<char>::empty());
        assert(utf16_encode(s) =~= char_units(s[0]) + utf16_encode(s.drop_first()));
    } else {
        lemma_encode_first(s.drop_last());
        assert(s.drop_last()[0] == s[0]);
        assert(s.drop_last().drop_first() =~= s.drop_first().drop_last());
        assert(s.drop_first().last() == s.last());
        assert(utf16_encode(s.drop_first()) == utf16_encode(s.drop_first().drop_last())
            + char_units(s.last()));
        assert(utf16_encode(s) =~= char_units(s[0]) + utf16_encode(s.drop_first()));
    }
}

/// Decoding an encoded string gives the string back: encoding never
/// produces lone surrogates, so nothing is lost.
pub proof fn lemma_utf16_round_trip(s: Seq<char>)
    ensures
        utf16_decode(utf16_encode(s)) == s,
    decreases s.len(),
{
    if s.len() == 0 {
        assert(utf16_decode(utf16_encode(s)) =~= s);
    } else {
        let c = s[0];
        let rest = s.drop_first();
        let v = c as u32;
        lemma_encode_first(s);
        lemma_utf16_round_trip(rest);
        char_is_scalar(c);
        let e = utf16_encode(s);
        if v < 0x10000 {
            let u = (v as u16);
            assert(e[0] == u);
            assert(u as u32 == v);
            assert(!is_high_surrogate(u) && !is_low_surrogate(u));
            char_u32_cast(c, v);
            assert(e.skip(1) =~= utf16_encode(rest));
            assert(utf16_decode(e) =~= s);
        } else {
            let hi = (0xD800 + ((v - 0x10000) / 0x400)) as u16;
            let lo = (0xDC00 + ((v - 0x10000) % 0x400)) as u16;
            assert(e.len() >= 2 && e[0] == hi && e[1] == lo);
            assert(0 <= (v - 0x10000) / 0x400 < 0x400) by (nonlinear_arith)
                requires
                    0x10000 <= v <= 0x10FFFF,
            ;
            assert(0 <= (v - 0x10000) % 0x400 < 0x400);
            assert(is_high_surrogate(hi) && is_low_surrogate(lo));
            lemma_fundamental_div_mod((v - 0x10000) as int, 0x400);
            assert(combined_scalar(hi, lo) == v);
            char_u32_cast(c, v);
            assert(e.skip(2) =~= utf16_encode(rest));
            assert(utf16_decode(e) =~= s);
        }
    }
}

/// Encodes a string as UTF-16 code units.
pub fn encode_utf16_str(s: &str) -> (r: Vec<u16>)
    ensures
        r@ == utf16_encode(s@),
{
    let n = s.unicode_len();
    let mut out: Vec<u16> = Vec::new();
    let mut i: usize = 0;
    while i < n
        invariant
            n == s@.len(),
            i <= n,
            out@ == utf16_encode(s@.take(i as int)),
        decreases n - i,
    {
        let c = s.get_char(i);
        let v = c as u32;
        proof {
            char_is_scalar(c);
            lemma_encode_take_step(s@, i as int);
        }
        if v < 0x10000 {
            out.push(v as u16);
        } else {
            out.push((0xD800 + ((v - 0x10000) / 0x400)) as u16);
            out.push((0xDC00 + ((v - 0x10000) % 0x400)) as u16);
        }
        i = i + 1;
        proof {
            assert(out@ =~= utf16_encode(s@.take(i as int)));
        }
    }
    proof {
        assert(s@.take(n as int) =~= s@);
    }
    out
}

/// Decodes UTF-16 code units into a string, lossily.
pub fn decode_utf16_units(units: &[u16]) -> (r: String)
    ensures
        r@ == utf16_decode(units@),
{
    let n = units.len();
    let mut out = String::new();
    let mut i: usize = 0;
    proof {
        assert(units@.skip(0) =~= units@);
        assert(out@ + utf16_decode(units@.skip(0)) =~= utf16_decode(units@));
    }
    while i < n
        invariant
            n == units@.len(),
            i <= n,
            out@ + utf16_decode(units@.skip(i as int)) == utf16_decode(units@),
        decreases n - i,
    {
        let u = units[i];
        let ghost pre = out@;
        proof {
            assert(units@.skip(i as int)[0] == units@[i as int]);
            if i + 1 < n {
                assert(units@.skip(i as int)[1] == units@[i + 1]);
            }
        }
        if 0xD800 <= u && u < 0xDC00 && i + 1 < n && 0xDC00 <= units[i + 1] && units[i + 1]
            < 0xE000 {
            let lo = units[i + 1];
            let combined: u32 = 0x10000 + ((u as u32) - 0xD800) * 0x400 + ((lo as u32) - 0xDC00);
            let c = match char_from_u32(combined) {
                Some(c) => c,
                None => {
                    proof {
                        assert(false);
                    }
                    '\u{FFFD}'
                },
            };
            push_char(&mut out, c);
            proof {
                char_u32_cast(c, combined);
                assert(utf16_decode(units@.skip(i as int)) == seq![
                    combined_scalar(units@[i as int], units@[i + 1]) as char,
                ] + utf16_decode(units@.skip(i as int).skip(2)));
                assert(units@.skip(i as int).skip(2) =~= units@.skip(i + 2));
                assert(out@ =~= pre.push(c));
            }
            i = i + 2;
        } else if (0xD800 <= u && u < 0xDC00) || (0xDC00 <= u && u < 0xE000) {
            push_char(&mut out, '\u{FFFD}');
            proof {
                if is_high_surrogate(units@[i as int]) && i + 1 < n && is_low_surrogate(
                    units@[i + 1],
                ) {
                    assert(false);
                }
                assert(utf16_decode(units@.skip(i as int)) == seq!['\u{FFFD}'] + utf16_decode(
                    units@.skip(i as int).skip(1),
                ));
                assert(units@.skip(i as int).skip(1) =~= units@.skip(i + 1));
            }
            i = i + 1;
        } else {
            let c = match char_from_u32(u as u32) {
                Some(c) => c,
                None => {
                    proof {
                        assert(false);
                    }
                    '\u{FFFD}'
                },
            };
            push_char(&mut out, c);
            proof {
                char_u32_cast(c, u as u32);
                assert(utf16_decode(units@.skip(i as int)) == seq![
                    (units@[i as int] as u32) as char,
                ] + utf16_decode(units@.skip(i as int).skip(1)));
                assert(units@.skip(i as int).skip(1) =~= units@.skip(i + 1));
            }
            i = i + 1;
        }
        proof {
            assert(out@ + utf16_decode(units@.skip(i as int)) =~= utf16_decode(units@));
        }
    }
    proof {
        assert(units@.skip(n as int) =~= Seq::<u16>::empty());
        assert(out@ =~= utf16_decode(units@));
    }
    out
}

} // verus!
