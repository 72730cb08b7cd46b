//! Text transcoding at the engine boundary: source text is handed to the
//! engine as UTF-16 code units, warning messages come back as
//! nul-terminated UTF-16, and warning filenames arrive as single-byte
//! Latin-1. Everything here is exact: each function's contract ties its
//! result to a specification-level transcoding of the input.

use vstd::prelude::*;

verus! {

/// The UTF-16 encoding of one character: one code unit for the basic
/// multilingual plane, a surrogate pair above it.
pub open spec fn char_utf16(c: char) -> Seq<u16> {
    if (c as u32) < 0x10000 {
        seq![(c as u32) as u16]
    } else {
        let v = ((c as u32) - 0x10000) as u32;
        seq![(0xD800 + (v >> 10)) as u16, (0xDC00 + (v & 0x3FF)) as u16]
    }
}

/// The UTF-16 encoding of a character sequence.
pub open spec fn utf16_of(s: Seq<char>) -> Seq<u16>
    decreases s.len(),
{
    if s.len() == 0 {
        Seq::empty()
    } else {
        utf16_of(s.drop_last()) + char_utf16(s.last())
    }
}

/// Append the UTF-16 code units of one character.
fn push_char_units(out: &mut Vec<u16>, c: char)
    ensures
        final(out)@ == old(out)@ + char_utf16(c),
{
    let u: u32 = c as u32;
    if u < 0x10000 {
        out.push(u as u16);
        proof {
            assert(old(out)@.push((u as u16)) =~= old(out)@ + char_utf16(c));
        }
    } else {
        let v: u32 = u - 0x10000;
        proof {
            assert(v <= 0xFFFFF);
            assert(v <= 0xFFFFFu32 ==> v >> 10 <= 0x3FF && v & 0x3FF <= 0x3FF) by (bit_vector);
        }
        let hi: u16 = (0xD800 + (v >> 10)) as u16;
        let lo: u16 = (0xDC00 + (v & 0x3FF)) as u16;
        out.push(hi);
        out.push(lo);
        proof {
            assert(old(out)@.push(hi).push(lo) =~= old(out)@ + char_utf16(c));
        }
    }
}

/// Encode source text as the sequence of UTF-16 code units the engine
/// consumes. Zero-length input yields a zero-length unit vector.
pub fn encode_utf16_units(s: &str) -> (r: Vec<u16>)
    ensures
        r@ == utf16_of(s@),
        s@.len() == 0 ==> r@.len() == 0,
{
    let mut out: Vec<u16> = Vec::new();
    for c in it: s.chars()
        invariant
            out@ == utf16_of(it.seq().take(it.index() as int)),
            it.seq() == s@,
    {
        proof {
            let t = it.seq().take(it.index() as int + 1);
            assert(t.drop_last() =~= it.seq().take(it.index() as int));
            assert(t.last() == c);
        }
        push_char_units(&mut out, c);
    }
    proof {
        assert(s@.take(s@.len() as int) =~= s@);
    }
    out
}

/// A leading surrogate code unit.
pub open spec fn is_high_surrogate(u: u16) -> bool {
    0xD800 <= u <= 0xDBFF
}

/// A trailing surrogate code unit.
pub open spec fn is_low_surrogate(u: u16) -> bool {
    0xDC00 <= u <= 0xDFFF
}

/// The code point a surrogate pair encodes.
pub open spec fn combine_surrogates(hi: u16, lo: u16) -> u32 {
    (0x10000 + (hi - 0xD800) * 0x400 + (lo - 0xDC00)) as u32
}

/// The replacement code point substituted for an unpaired surrogate.
pub const REPLACEMENT_POINT: u32 = 0xFFFD;

/// Lossy UTF-16 decoding to code points: surrogate pairs combine, unpaired
/// surrogates become the replacement code point, everything else passes
/// through.
pub open spec fn utf16_decode_lossy(units: Seq<u16>) -> Seq<u32>
    decreases units.len(),
{
    if units.len() == 0 {
        Seq::empty()
    } else if is_high_surrogate(units[0]) && units.len() >= 2 && is_low_surrogate(units[1]) {
        seq![combine_surrogates(units[0], units[1])] + utf16_decode_lossy(units.skip(2))
    } else if is_high_surrogate(units[0]) || is_low_surrogate(units[0]) {
        seq![REPLACEMENT_POINT] + utf16_decode_lossy(units.skip(1))
    } else {
        seq![units[0] as u32] + utf16_decode_lossy(units.skip(1))
    }
}

/// Decode UTF-16 code units to code points, lossily.
pub fn decode_utf16_lossy(units: &Vec<u16>) -> (r: Vec<u32>)
    ensures
        r@ == utf16_decode_lossy(units@),
{
    let mut out: Vec<u32> = Vec::new();
    let mut i: usize = 0;
    proof {
        assert(units@.skip(0) =~= units@);
    }
    while i < units.len()
        invariant
            i <= units@.len(),
            utf16_decode_lossy(units@) == out@ + utf16_decode_lossy(units@.skip(i as int)),
        decreases units@.len() - i,
    {
        let u: u16 = units[i];
        proof {
            assert(units@.skip(i as int)[0] == units@[i as int]);
        }
        if 0xD800 <= u && u <= 0xDBFF && i + 1 < units.len() && 0xDC00 <= units[i + 1] && units[i
            + 1] <= 0xDFFF {
            let lo: u16 = units[i + 1];
            proof {
                assert(units@.skip(i as int)[1] == units@[i as int + 1]);
                assert(units@.skip(i as int).skip(2) =~= units@.skip(i as int + 2));
            }
            out.push(0x10000 + ((u - 0xD800) as u32) * 0x400 + ((lo - 0xDC00) as u32));
            i = i + 2;
        } else {
            proof {
                assert(units@.skip(i as int).skip(1) =~= units@.skip(i as int + 1));
            }
            if 0xD800 <= u && u <= 0xDFFF {
                out.push(REPLACEMENT_POINT);
            } else {
                out.push(u as u32);
            }
            i = i + 1;
        }
    }
    proof {
        assert(units@.skip(units@.len() as int) =~= Seq::<u16>::empty());
    }
    out
}

/// The length of the prefix before the first nul unit; the whole length
/// when no nul occurs.
pub open spec fn first_nul(units: Seq<u16>) -> int
    decreases units.len(),
{
    if units.len() == 0 {
        0
    } else if units[0] == 0 {
        0
    } else {
        1 + first_nul(units.drop_first())
    }
}

/// The first-nul position is a position in range whose prefix is nul-free.
pub proof fn lemma_first_nul_bounds(units: Seq<u16>)
    ensures
        0 <= first_nul(units) <= units.len(),
        forall|j: int| 0 <= j < first_nul(units) ==> units[j] != 0,
        first_nul(units) < units.len() ==> units[first_nul(units)] == 0,
    decreases units.len(),
{
    if units.len() != 0 && units[0] != 0 {
        lemma_first_nul_bounds(units.drop_first());
        assert forall|j: int| 0 <= j < first_nul(units) implies units[j] != 0 by {
            if j > 0 {
                assert(units.drop_first()[j - 1] == units[j]);
            }
        }
        if first_nul(units) < units.len() {
            assert(units.drop_first()[first_nul(units) - 1] == units[first_nul(units)]);
        }
    }
}

/// The code units before the first nul terminator.
pub fn take_until_nul(units: &Vec<u16>) -> (r: Vec<u16>)
    ensures
        r@ == units@.take(first_nul(units@)),
{
    proof {
        lemma_first_nul_bounds(units@);
    }
    let mut out: Vec<u16> = Vec::new();
    let mut i: usize = 0;
    while i < units.len()
        invariant
            i <= units@.len(),
            out@ == units@.take(i as int),
            forall|j: int| 0 <= j < i ==> units@[j] != 0,
            0 <= first_nul(units@) <= units@.len(),
            forall|j: int| 0 <= j < first_nul(units@) ==> units@[j] != 0,
            first_nul(units@) < units@.len() ==> units@[first_nul(units@)] == 0,
            i <= first_nul(units@),
        decreases units@.len() - i,
    {
        let u: u16 = units[i];
        if u == 0 {
            proof {
                // i is a nul position with a nul-free prefix, so it is the first
                assert(first_nul(units@) <= i);
            }
            return out;
        }
        proof {
            assert(units@.take(i as int + 1) =~= units@.take(i as int).push(units@[i as int]));
            assert(i != first_nul(units@));
        }
        out.push(u);
        i = i + 1;
    }
    proof {
        assert(i == first_nul(units@));
    }
    out
}

/// The code points of a Latin-1 byte sequence: each byte widened.
pub open spec fn latin1_points(bytes: Seq<u8>) -> Seq<u32> {
    bytes.map(|i: int, b: u8| b as u32)
}

/// Widen Latin-1 filename bytes to code points.
pub fn latin1_to_points(bytes: &Vec<u8>) -> (r: Vec<u32>)
    ensures
        r@ == latin1_points(bytes@),
{
    let mut out: Vec<u32> = Vec::new();
    let mut i: usize = 0;
    while i < bytes.len()
        invariant
            i <= bytes@.len(),
            out@.len() == i,
            forall|j: int| 0 <= j < i ==> out@[j] == bytes@[j] as u32,
        decreases bytes@.len() - i,
    {
        out.push(bytes[i] as u32);
        i = i + 1;
    }
    proof {
        assert(out@ =~= latin1_points(bytes@));
    }
    out
}

} // verus!
