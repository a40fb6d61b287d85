use vstd::prelude::*;

use crate::config::VARINT_MAX;

verus! {

/// Number of bytes of the shortest encoding of `v`.
pub open spec fn varint_size(v: u64) -> nat {
    if v < 0x40 {
        1
    } else if v < 0x4000 {
        2
    } else if v < 0x4000_0000 {
        4
    } else {
        8
    }
}

/// The shortest encoding of `v`: big-endian, with the length tag in the two top bits.
pub open spec fn spec_varint_bytes(v: u64) -> Seq<u8> {
    if v < 0x40 {
        seq![v as u8]
    } else if v < 0x4000 {
        seq![(0x40 | (v >> 8u64)) as u8, (v & 0xff) as u8]
    } else if v < 0x4000_0000 {
        seq![
            (0x80 | (v >> 24u64)) as u8,
            ((v >> 16u64) & 0xff) as u8,
            ((v >> 8u64) & 0xff) as u8,
            (v & 0xff) as u8,
        ]
    } else {
        seq![
            (0xc0 | (v >> 56u64)) as u8,
            ((v >> 48u64) & 0xff) as u8,
            ((v >> 40u64) & 0xff) as u8,
            ((v >> 32u64) & 0xff) as u8,
            ((v >> 24u64) & 0xff) as u8,
            ((v >> 16u64) & 0xff) as u8,
            ((v >> 8u64) & 0xff) as u8,
            (v & 0xff) as u8,
        ]
    }
}

/// Number of bytes announced by the tag of a leading byte.
pub open spec fn tagged_len(b0: u8) -> nat {
    if b0 >> 6u8 == 0 {
        1
    } else if b0 >> 6u8 == 1 {
        2
    } else if b0 >> 6u8 == 2 {
        4
    } else {
        8
    }
}

/// Value of the first `tagged_len(s[0])` bytes of `s`, the tag bits left out.
pub open spec fn tagged_value(s: Seq<u8>) -> u64
    recommends
        s.len() >= tagged_len(s[0]),
{
    let b0 = (s[0] & 0x3f) as u64;
    if s[0] >> 6u8 == 0 {
        b0
    } else if s[0] >> 6u8 == 1 {
        (b0 << 8u64) | (s[1] as u64)
    } else if s[0] >> 6u8 == 2 {
        (b0 << 24u64) | ((s[1] as u64) << 16u64) | ((s[2] as u64) << 8u64) | (s[3] as u64)
    } else {
        (b0 << 56u64) | ((s[1] as u64) << 48u64) | ((s[2] as u64) << 40u64) | ((s[3] as u64)
            << 32u64) | ((s[4] as u64) << 24u64) | ((s[5] as u64) << 16u64) | ((s[6] as u64)
            << 8u64) | (s[7] as u64)
    }
}

/// The varint at the front of `s` and the number of bytes it takes, or `None` when `s` ends
/// before the varint does.
pub open spec fn spec_varint_parse(s: Seq<u8>) -> Option<(u64, nat)> {
    if s.len() == 0 || s.len() < tagged_len(s[0]) {
        None
    } else {
        Some((tagged_value(s), tagged_len(s[0])))
    }
}

pub proof fn lemma_varint_parse_len(s: Seq<u8>)
    ensures
        spec_varint_parse(s) matches Some((v, n)) ==> 1 <= n <= 8 && n <= s.len(),
{
}

/// Decoding the encoding of a varint, followed by anything, gives back the varint and the
/// length of its encoding.
pub proof fn lemma_varint_round_trip(v: u64, rest: Seq<u8>)
    requires
        v <= VARINT_MAX,
    ensures
        spec_varint_bytes(v).len() == varint_size(v),
        spec_varint_parse(spec_varint_bytes(v) + rest) == Some((v, varint_size(v))),
{
    let s = spec_varint_bytes(v) + rest;
    if v < 0x40 {
        let b0 = v as u8;
        assert(b0 >> 6u8 == 0 && (b0 & 0x3f) as u64 == v) by (bit_vector)
            requires
                v < 0x40,
                b0 == v as u8,
        ;
        assert(s[0] == b0);
    } else if v < 0x4000 {
        let b0 = (0x40 | (v >> 8u64)) as u8;
        let b1 = (v & 0xff) as u8;
        assert(b0 >> 6u8 == 1 && ((((b0 & 0x3f) as u64) << 8u64) | (b1 as u64)) == v)
            by (bit_vector)
            requires
                0x40 <= v < 0x4000,
                b0 == (0x40 | (v >> 8u64)) as u8,
                b1 == (v & 0xff) as u8,
        ;
        assert(s[0] == b0 && s[1] == b1);
    } else if v < 0x4000_0000 {
        let b0 = (0x80 | (v >> 24u64)) as u8;
        let b1 = ((v >> 16u64) & 0xff) as u8;
        let b2 = ((v >> 8u64) & 0xff) as u8;
        let b3 = (v & 0xff) as u8;
        assert(b0 >> 6u8 == 2 && ((((b0 & 0x3f) as u64) << 24u64) | ((b1 as u64) << 16u64) | ((
        b2 as u64) << 8u64) | (b3 as u64)) == v) by (bit_vector)
            requires
                0x4000 <= v < 0x4000_0000,
                b0 == (0x80 | (v >> 24u64)) as u8,
                b1 == ((v >> 16u64) & 0xff) as u8,
                b2 == ((v >> 8u64) & 0xff) as u8,
                b3 == (v & 0xff) as u8,
        ;
        assert(s[0] == b0 && s[1] == b1 && s[2] == b2 && s[3] == b3);
    } else {
        let b0 = (0xc0 | (v >> 56u64)) as u8;
        let b1 = ((v >> 48u64) & 0xff) as u8;
        let b2 = ((v >> 40u64) & 0xff) as u8;
        let b3 = ((v >> 32u64) & 0xff) as u8;
        let b4 = ((v >> 24u64) & 0xff) as u8;
        let b5 = ((v >> 16u64) & 0xff) as u8;
        let b6 = ((v >> 8u64) & 0xff) as u8;
        let b7 = (v & 0xff) as u8;
        assert(b0 >> 6u8 == 3 && ((((b0 & 0x3f) as u64) << 56u64) | ((b1 as u64) << 48u64) | ((
        b2 as u64) << 40u64) | ((b3 as u64) << 32u64) | ((b4 as u64) << 24u64) | ((b5 as u64)
            << 16u64) | ((b6 as u64) << 8u64) | (b7 as u64)) == v) by (bit_vector)
            requires
                0x4000_0000 <= v <= 0x3fff_ffff_ffff_ffff,
                b0 == (0xc0 | (v >> 56u64)) as u8,
                b1 == ((v >> 48u64) & 0xff) as u8,
                b2 == ((v >> 40u64) & 0xff) as u8,
                b3 == ((v >> 32u64) & 0xff) as u8,
                b4 == ((v >> 24u64) & 0xff) as u8,
                b5 == ((v >> 16u64) & 0xff) as u8,
                b6 == ((v >> 8u64) & 0xff) as u8,
                b7 == (v & 0xff) as u8,
        ;
        assert(s[0] == b0 && s[1] == b1 && s[2] == b2 && s[3] == b3);
        assert(s[4] == b4 && s[5] == b5 && s[6] == b6 && s[7] == b7);
    }
}

/// Appends the shortest encoding of `v` to `buf`.
pub fn encode_varint(buf: &mut Vec<u8>, v: u64)
    requires
        v <= VARINT_MAX,
    ensures
        final(buf)@ == old(buf)@ + spec_varint_bytes(v),
{
    if v < 0x40 {
        buf.push(v as u8);
    } else if v < 0x4000 {
        buf.push((0x40 | (v >> 8u64)) as u8);
        buf.push((v & 0xff) as u8);
    } else if v < 0x4000_0000 {
        buf.push((0x80 | (v >> 24u64)) as u8);
        buf.push(((v >> 16u64) & 0xff) as u8);
        buf.push(((v >> 8u64) & 0xff) as u8);
        buf.push((v & 0xff) as u8);
    } else {
        buf.push((0xc0 | (v >> 56u64)) as u8);
        buf.push(((v >> 48u64) & 0xff) as u8);
        buf.push(((v >> 40u64) & 0xff) as u8);
        buf.push(((v >> 32u64) & 0xff) as u8);
        buf.push(((v >> 24u64) & 0xff) as u8);
        buf.push(((v >> 16u64) & 0xff) as u8);
        buf.push(((v >> 8u64) & 0xff) as u8);
        buf.push((v & 0xff) as u8);
    }
    assert(final(buf)@ =~= old(buf)@ + spec_varint_bytes(v));
}

/// Reads the varint that starts at `pos` in `buf`: its value and the position after it.
pub fn decode_varint(buf: &[u8], pos: usize) -> (r: Option<(u64, usize)>)
    requires
        pos <= buf@.len(),
    ensures
        match spec_varint_parse(buf@.skip(pos as int)) {
            None => r.is_none(),
            Some((v, n)) => r == Some((v, (pos + n) as usize)),
        },
{
    let ghost s = buf@.skip(pos as int);
    if pos >= buf.len() {
        return None;
    }
    let b0 = buf[pos];
    let tag = b0 >> 6u8;
    let len: usize = if tag == 0 {
        1
    } else if tag == 1 {
        2
    } else if tag == 2 {
        4
    } else {
        8
    };
    assert(s[0] == b0);
    if buf.len() - pos < len {
        return None;
    }
    let hi = (b0 & 0x3f) as u64;
    let v: u64 = if tag == 0 {
        hi
    } else if tag == 1 {
        (hi << 8u64) | (buf[pos + 1] as u64)
    } else if tag == 2 {
        (hi << 24u64) | ((buf[pos + 1] as u64) << 16u64) | ((buf[pos + 2] as u64) << 8u64) | (
        buf[pos + 3] as u64)
    } else {
        (hi << 56u64) | ((buf[pos + 1] as u64) << 48u64) | ((buf[pos + 2] as u64) << 40u64) | ((
        buf[pos + 3] as u64) << 32u64) | ((buf[pos + 4] as u64) << 24u64) | ((buf[pos + 5] as u64)
            << 16u64) | ((buf[pos + 6] as u64) << 8u64) | (buf[pos + 7] as u64)
    };
    Some((v, pos + len))
}

} // verus!
