//! The device's frame text encoding: standard base64 (standard alphabet,
//! `=` padding, no line wrapping) over the raw frame bytes.
//!
//! The encoder is written against an exact mathematical statement of the
//! encoding, and the decoder-side statement proves the round-trip law:
//! decoding the produced text reproduces the input bytes unchanged.

use crate::frame::Frame;
use vstd::prelude::*;

verus! {

/// ASCII code of the `=` padding character.
pub const PAD_BYTE: u8 = 61;

/// The base64 alphabet: the ASCII byte for a six-bit value `v` in `0..64`.
pub open spec fn b64_char(v: int) -> u8 {
    if 0 <= v < 26 {
        (65 + v) as u8  // 'A'..='Z'
    } else if 26 <= v < 52 {
        (97 + (v - 26)) as u8  // 'a'..='z'
    } else if 52 <= v < 62 {
        (48 + (v - 52)) as u8  // '0'..='9'
    } else if v == 62 {
        43u8  // '+'
    } else {
        47u8  // '/'
    }
}

/// The six-bit value of an alphabet byte, or `-1` for a byte outside the
/// base64 alphabet (such as the padding byte).
pub open spec fn b64_value(c: u8) -> int {
    if 65 <= c <= 90 {
        c - 65
    } else if 97 <= c <= 122 {
        (c - 97) + 26
    } else if 48 <= c <= 57 {
        (c - 48) + 52
    } else if c == 43 {
        62
    } else if c == 47 {
        63
    } else {
        -1
    }
}

/// The four alphabet bytes that encode one full group of three input bytes.
pub open spec fn encode_group(b0: u8, b1: u8, b2: u8) -> Seq<u8> {
    seq![
        b64_char((b0 >> 2) as int),
        b64_char((((b0 & 0x03) << 4) | (b1 >> 4)) as int),
        b64_char((((b1 & 0x0f) << 2) | (b2 >> 6)) as int),
        b64_char((b2 & 0x3f) as int),
    ]
}

/// Standard base64 encoding of a byte sequence, as ASCII bytes: full
/// three-byte groups become four alphabet bytes; a one- or two-byte tail
/// is padded with `=` to a four-byte block.
pub open spec fn base64_encode(s: Seq<u8>) -> Seq<u8>
    decreases s.len(),
{
    if s.len() == 0 {
        Seq::empty()
    } else if s.len() == 1 {
        seq![
            b64_char((s[0] >> 2) as int),
            b64_char(((s[0] & 0x03) << 4) as int),
            PAD_BYTE,
            PAD_BYTE,
        ]
    } else if s.len() == 2 {
        seq![
            b64_char((s[0] >> 2) as int),
            b64_char((((s[0] & 0x03) << 4) | (s[1] >> 4)) as int),
            b64_char(((s[1] & 0x0f) << 2) as int),
            PAD_BYTE,
        ]
    } else {
        encode_group(s[0], s[1], s[2]) + base64_encode(s.skip(3))
    }
}

/// The three bytes held by one four-byte block of alphabet characters.
pub open spec fn decode_group(c0: u8, c1: u8, c2: u8, c3: u8) -> Seq<u8> {
    let d0 = b64_value(c0) as u8;
    let d1 = b64_value(c1) as u8;
    let d2 = b64_value(c2) as u8;
    let d3 = b64_value(c3) as u8;
    seq![
        ((d0 << 2) | (d1 >> 4)) as u8,
        (((d1 & 0x0f) << 4) | (d2 >> 2)) as u8,
        (((d2 & 0x03) << 6) | d3) as u8,
    ]
}

/// Standard base64 decoding of well-formed base64 text: each four-byte
/// block yields three bytes, except a final padded block, which yields
/// one byte (`==`) or two bytes (`=`).
pub open spec fn base64_decode(s: Seq<u8>) -> Seq<u8>
    decreases s.len(),
{
    if s.len() < 4 {
        Seq::empty()
    } else if s.len() == 4 {
        if s[2] == PAD_BYTE && s[3] == PAD_BYTE {
            decode_group(s[0], s[1], 65, 65).take(1)
        } else if s[3] == PAD_BYTE {
            decode_group(s[0], s[1], s[2], 65).take(2)
        } else {
            decode_group(s[0], s[1], s[2], s[3])
        }
    } else {
        decode_group(s[0], s[1], s[2], s[3]) + base64_decode(s.skip(4))
    }
}

/// The alphabet map is injective: looking an alphabet byte back up gives
/// the six-bit value it encodes, and no alphabet byte is the padding byte.
proof fn lemma_char_value(v: int)
    requires
        0 <= v < 64,
    ensures
        b64_value(b64_char(v)) == v,
        b64_char(v) != PAD_BYTE,
{
}

/// Encoded length: four output bytes for every started group of three
/// input bytes.
pub proof fn lemma_encode_len(s: Seq<u8>)
    ensures
        base64_encode(s).len() == 4 * ((s.len() + 2) / 3),
    decreases s.len(),
{
    if s.len() >= 3 {
        lemma_encode_len(s.skip(3));
    }
}

/// Encoding splits at any group boundary.
proof fn lemma_encode_split(s: Seq<u8>, n: int)
    requires
        0 <= n <= s.len(),
        n % 3 == 0,
    ensures
        base64_encode(s) == base64_encode(s.take(n)) + base64_encode(s.skip(n)),
    decreases n,
{
    if n == 0 {
        assert(s.take(0) =~= Seq::<u8>::empty());
        assert(s.skip(0) =~= s);
        assert(base64_encode(s.take(0)) + base64_encode(s.skip(0)) =~= base64_encode(s));
    } else {
        lemma_encode_split(s.skip(3), n - 3);
        assert(s.skip(3).take(n - 3) =~= s.take(n).skip(3));
        assert(s.skip(3).skip(n - 3) =~= s.skip(n));
        let t = s.take(n);
        assert(t.len() == n >= 3);
        assert(t[0] == s[0] && t[1] == s[1] && t[2] == s[2]);
        assert(base64_encode(t) == encode_group(s[0], s[1], s[2]) + base64_encode(t.skip(3)));
        assert(base64_encode(s) =~= base64_encode(s.take(n)) + base64_encode(s.skip(n)));
    }
}

/// One full group decodes back to the three bytes it encodes.
proof fn lemma_group_round_trip(b0: u8, b1: u8, b2: u8)
    ensures
        ({
            let g = encode_group(b0, b1, b2);
            decode_group(g[0], g[1], g[2], g[3]) =~= seq![b0, b1, b2]
        }),
        forall|i: int| 0 <= i < 4 ==> #[trigger] encode_group(b0, b1, b2)[i] != PAD_BYTE,
{
    let s0 = b0 >> 2;
    let s1 = ((b0 & 0x03) << 4) | (b1 >> 4);
    let s2 = ((b1 & 0x0f) << 2) | (b2 >> 6);
    let s3 = b2 & 0x3f;
    assert(s0 < 64 && s1 < 64 && s2 < 64 && s3 < 64) by (bit_vector)
        requires
            s0 == b0 >> 2,
            s1 == ((b0 & 0x03) << 4) | (b1 >> 4),
            s2 == ((b1 & 0x0f) << 2) | (b2 >> 6),
            s3 == b2 & 0x3f,
    ;
    lemma_char_value(s0 as int);
    lemma_char_value(s1 as int);
    lemma_char_value(s2 as int);
    lemma_char_value(s3 as int);
    assert(((s0 << 2) | (s1 >> 4)) == b0 && (((s1 & 0x0f) << 4) | (s2 >> 2)) == b1 && (((s2
        & 0x03) << 6) | s3) == b2) by (bit_vector)
        requires
            s0 == b0 >> 2,
            s1 == ((b0 & 0x03) << 4) | (b1 >> 4),
            s2 == ((b1 & 0x0f) << 2) | (b2 >> 6),
            s3 == b2 & 0x3f,
    ;
}

/// Round-trip law: standard base64 decoding of the encoding of any byte
/// sequence reproduces that sequence exactly.
pub proof fn lemma_base64_round_trip(s: Seq<u8>)
    ensures
        base64_decode(base64_encode(s)) == s,
    decreases s.len(),
{
    if s.len() == 0 {
        assert(base64_decode(base64_encode(s)) =~= s);
    } else if s.len() == 1 {
        let b0 = s[0];
        let c0 = b64_char((b0 >> 2) as int);
        let c1 = b64_char(((b0 & 0x03) << 4) as int);
        assert(b0 >> 2 < 64 && (b0 & 0x03) << 4 < 64) by (bit_vector);
        lemma_char_value((b0 >> 2) as int);
        lemma_char_value(((b0 & 0x03) << 4) as int);
        let d0 = b64_value(c0) as u8;
        let d1 = b64_value(c1) as u8;
        assert(((d0 << 2) | (d1 >> 4)) == b0) by (bit_vector)
            requires
                d0 == b0 >> 2,
                d1 == (b0 & 0x03) << 4,
        ;
        assert(base64_decode(base64_encode(s)) =~= s);
    } else if s.len() == 2 {
        let b0 = s[0];
        let b1 = s[1];
        let v0 = b0 >> 2;
        let v1 = ((b0 & 0x03) << 4) | (b1 >> 4);
        let v2 = (b1 & 0x0f) << 2;
        assert(v0 < 64 && v1 < 64 && v2 < 64) by (bit_vector)
            requires
                v0 == b0 >> 2,
                v1 == ((b0 & 0x03) << 4) | (b1 >> 4),
                v2 == (b1 & 0x0f) << 2,
        ;
        lemma_char_value(v0 as int);
        lemma_char_value(v1 as int);
        lemma_char_value(v2 as int);
        assert(((v0 << 2) | (v1 >> 4)) == b0 && (((v1 & 0x0f) << 4) | (v2 >> 2)) == b1)
            by (bit_vector)
            requires
                v0 == b0 >> 2,
                v1 == ((b0 & 0x03) << 4) | (b1 >> 4),
                v2 == (b1 & 0x0f) << 2,
        ;
        assert(base64_decode(base64_encode(s)) =~= s);
    } else if s.len() == 3 {
        lemma_group_round_trip(s[0], s[1], s[2]);
        assert(s.skip(3) =~= Seq::<u8>::empty());
        assert(base64_encode(s.skip(3)) =~= Seq::<u8>::empty());
        let e = base64_encode(s);
        assert(e =~= encode_group(s[0], s[1], s[2]));
        assert(base64_decode(base64_encode(s)) =~= s);
    } else {
        lemma_group_round_trip(s[0], s[1], s[2]);
        lemma_base64_round_trip(s.skip(3));
        lemma_encode_len(s.skip(3));
        let e = base64_encode(s);
        let rest = base64_encode(s.skip(3));
        assert(e == encode_group(s[0], s[1], s[2]) + rest);
        assert(rest.len() >= 4);
        assert(e.len() > 4);
        assert(e[0] == encode_group(s[0], s[1], s[2])[0]);
        assert(e[1] == encode_group(s[0], s[1], s[2])[1]);
        assert(e[2] == encode_group(s[0], s[1], s[2])[2]);
        assert(e[3] == encode_group(s[0], s[1], s[2])[3]);
        assert(e.skip(4) =~= rest);
        assert(base64_decode(e) == decode_group(e[0], e[1], e[2], e[3]) + base64_decode(e.skip(4)));
        assert(base64_decode(base64_encode(s)) =~= s);
    }
}

/// The alphabet byte for a six-bit value.
fn b64_char_byte(v: u8) -> (r: u8)
    requires
        v < 64,
    ensures
        r == b64_char(v as int),
{
    if v < 26 {
        65 + v
    } else if v < 52 {
        97 + (v - 26)
    } else if v < 62 {
        48 + (v - 52)
    } else if v == 62 {
        43
    } else {
        47
    }
}

/// Encode a byte slice as standard base64 text (ASCII bytes, padded,
/// no line wrapping).
pub fn base64_encode_bytes(bytes: &[u8]) -> (out: Vec<u8>)
    ensures
        out@ == base64_encode(bytes@),
{
    let len: usize = bytes.len();
    let groups: usize = len / 3;
    let mut out: Vec<u8> = Vec::new();
    let mut g: usize = 0;
    while g < groups
        invariant
            g <= groups,
            groups == len / 3,
            len == bytes@.len(),
            out@ == base64_encode(bytes@.take(3 * g)),
        decreases groups - g,
    {
        let i: usize = 3 * g;
        let b0 = bytes[i];
        let b1 = bytes[i + 1];
        let b2 = bytes[i + 2];
        let s0 = b0 >> 2u8;
        let s1 = ((b0 & 0x03) << 4u8) | (b1 >> 4u8);
        let s2 = ((b1 & 0x0f) << 2u8) | (b2 >> 6u8);
        let s3 = b2 & 0x3f;
        proof {
            assert(s0 < 64 && s1 < 64 && s2 < 64 && s3 < 64) by (bit_vector)
                requires
                    s0 == b0 >> 2u8,
                    s1 == ((b0 & 0x03) << 4u8) | (b1 >> 4u8),
                    s2 == ((b1 & 0x0f) << 2u8) | (b2 >> 6u8),
                    s3 == b2 & 0x3f,
            ;
        }
        out.push(b64_char_byte(s0));
        out.push(b64_char_byte(s1));
        out.push(b64_char_byte(s2));
        out.push(b64_char_byte(s3));
        proof {
            let n = 3 * g as int;
            let t = bytes@.take(n + 3);
            lemma_encode_split(t, n);
            assert(t.take(n) =~= bytes@.take(n));
            let tail = t.skip(n);
            assert(tail.len() == 3);
            assert(tail[0] == b0 && tail[1] == b1 && tail[2] == b2);
            assert(tail.skip(3) =~= Seq::<u8>::empty());
            assert(base64_encode(tail.skip(3)) =~= Seq::<u8>::empty());
            assert(base64_encode(tail) =~= encode_group(b0, b1, b2));
            assert(out@ =~= base64_encode(bytes@.take(n + 3)));
        }
        g = g + 1;
    }
    let done: usize = 3 * groups;
    let rem: usize = len - done;
    if rem == 1 {
        let b0 = bytes[done];
        let s0 = b0 >> 2u8;
        let s1 = (b0 & 0x03) << 4u8;
        proof {
            assert(s0 < 64 && s1 < 64) by (bit_vector)
                requires
                    s0 == b0 >> 2u8,
                    s1 == (b0 & 0x03) << 4u8,
            ;
        }
        out.push(b64_char_byte(s0));
        out.push(b64_char_byte(s1));
        out.push(PAD_BYTE);
        out.push(PAD_BYTE);
        proof {
            lemma_encode_split(bytes@, done as int);
            let tail = bytes@.skip(done as int);
            assert(tail.len() == 1);
            assert(tail[0] == b0);
            assert(out@ =~= base64_encode(bytes@));
        }
    } else if rem == 2 {
        let b0 = bytes[done];
        let b1 = bytes[done + 1];
        let s0 = b0 >> 2u8;
        let s1 = ((b0 & 0x03) << 4u8) | (b1 >> 4u8);
        let s2 = (b1 & 0x0f) << 2u8;
        proof {
            assert(s0 < 64 && s1 < 64 && s2 < 64) by (bit_vector)
                requires
                    s0 == b0 >> 2u8,
                    s1 == ((b0 & 0x03) << 4u8) | (b1 >> 4u8),
                    s2 == (b1 & 0x0f) << 2u8,
            ;
        }
        out.push(b64_char_byte(s0));
        out.push(b64_char_byte(s1));
        out.push(b64_char_byte(s2));
        out.push(PAD_BYTE);
        proof {
            lemma_encode_split(bytes@, done as int);
            let tail = bytes@.skip(done as int);
            assert(tail.len() == 2);
            assert(tail[0] == b0 && tail[1] == b1);
            assert(out@ =~= base64_encode(bytes@));
        }
    } else {
        proof {
            assert(bytes@.take(3 * groups as int) =~= bytes@);
        }
    }
    out
}

/// Serialize a frame into the text placed verbatim in the `pic_data`
/// field of a send-frame command.
pub fn serialize_frame(frame: &Frame) -> (out: Vec<u8>)
    requires
        frame.wf(),
    ensures
        out@ == base64_encode(frame@),
        out@.len() == 16384,
{
    let out = base64_encode_bytes(frame.as_bytes());
    proof {
        lemma_encode_len(frame@);
    }
    out
}

} // verus!
