//! Model of standard base64 (RFC 4648: the standard alphabet with `=`
//! padding), a proof that decoding inverts encoding, and a decode entry
//! point backed by the `base64` crate.
use vstd::prelude::*;

verus! {

/// Six-bit value of one character of the standard alphabet, or -1 for a
/// character outside it (`=` included).
pub open spec fn b64_value(c: char) -> int {
    let u = c as u32;
    if 65 <= u <= 90 {
        u - 65
    } else if 97 <= u <= 122 {
        u - 97 + 26
    } else if 48 <= u <= 57 {
        u - 48 + 52
    } else if u == 43 {
        62
    } else if u == 47 {
        63
    } else {
        -1
    }
}

/// True for the 64 characters of the standard alphabet.
pub open spec fn is_b64_char(c: char) -> bool {
    b64_value(c) >= 0
}

/// Character of the standard alphabet that carries a six-bit value.
pub open spec fn b64_char(v: u8) -> char
    recommends
        v < 64,
{
    if v < 26 {
        // 'A'..='Z'
        (v + 65) as char
    } else if v < 52 {
        // 'a'..='z'
        (v + 71) as char
    } else if v < 62 {
        // '0'..='9'
        (v - 4) as char
    } else if v == 62 {
        '+'
    } else {
        '/'
    }
}

/// The alphabet mapping and its inverse agree on every six-bit value.
pub proof fn lemma_b64_char_value(v: u8)
    requires
        v < 64,
    ensures
        is_b64_char(b64_char(v)),
        b64_value(b64_char(v)) == v,
{
}

/// The three bytes carried by a full group of four alphabet characters.
pub open spec fn decode4(c0: char, c1: char, c2: char, c3: char) -> Seq<u8>
    recommends
        is_b64_char(c0),
        is_b64_char(c1),
        is_b64_char(c2),
        is_b64_char(c3),
{
    let v0 = b64_value(c0) as u8;
    let v1 = b64_value(c1) as u8;
    let v2 = b64_value(c2) as u8;
    let v3 = b64_value(c3) as u8;
    seq![(v0 << 2) | (v1 >> 4), ((v1 & 0x0F) << 4) | (v2 >> 2), ((v2 & 0x03) << 6) | v3]
}

/// Bytes carried by the final group of an encoding, where `=` padding may
/// stand; `None` when the four characters do not form a valid final group.
/// A padded group must leave the unused low bits of its last data character
/// zero: the canonical form is the only one accepted.
pub open spec fn decode_last4(c0: char, c1: char, c2: char, c3: char) -> Option<Seq<u8>> {
    if is_b64_char(c0) && is_b64_char(c1) {
        let v0 = b64_value(c0) as u8;
        let v1 = b64_value(c1) as u8;
        let v2 = b64_value(c2) as u8;
        if is_b64_char(c2) && is_b64_char(c3) {
            Some(decode4(c0, c1, c2, c3))
        } else if is_b64_char(c2) && c3 == '=' {
            if v2 & 0x03 == 0 {
                Some(seq![(v0 << 2) | (v1 >> 4), ((v1 & 0x0F) << 4) | (v2 >> 2)])
            } else {
                None
            }
        } else if c2 == '=' && c3 == '=' {
            if v1 & 0x0F == 0 {
                Some(seq![(v0 << 2) | (v1 >> 4)])
            } else {
                None
            }
        } else {
            None
        }
    } else {
        None
    }
}

/// Standard base64 decoding of a character sequence: groups of four
/// characters, padding admitted only in the final group, and only in its
/// canonical form. `None` on every input that is not a standard padded
/// encoding.
pub open spec fn spec_b64_decode(s: Seq<char>) -> Option<Seq<u8>>
    decreases s.len(),
{
    if s.len() == 0 {
        Some(Seq::empty())
    } else if s.len() % 4 != 0 {
        None
    } else if s.len() == 4 {
        decode_last4(s[0], s[1], s[2], s[3])
    } else if is_b64_char(s[0]) && is_b64_char(s[1]) && is_b64_char(s[2]) && is_b64_char(s[3]) {
        match spec_b64_decode(s.skip(4)) {
            Some(rest) => Some(decode4(s[0], s[1], s[2], s[3]) + rest),
            None => None,
        }
    } else {
        None
    }
}

/// The four alphabet characters that encode three bytes.
pub open spec fn encode3(b0: u8, b1: u8, b2: u8) -> Seq<char> {
    seq![
        b64_char(b0 >> 2),
        b64_char(((b0 & 0x03) << 4) | (b1 >> 4)),
        b64_char(((b1 & 0x0F) << 2) | (b2 >> 6)),
        b64_char(b2 & 0x3F),
    ]
}

/// Standard base64 encoding of a byte sequence, with canonical `=` padding.
pub open spec fn spec_b64_encode(b: Seq<u8>) -> Seq<char>
    decreases b.len(),
{
    if b.len() == 0 {
        Seq::empty()
    } else if b.len() == 1 {
        seq![b64_char(b[0] >> 2), b64_char((b[0] & 0x03) << 4), '=', '=']
    } else if b.len() == 2 {
        seq![
            b64_char(b[0] >> 2),
            b64_char(((b[0] & 0x03) << 4) | (b[1] >> 4)),
            b64_char((b[1] & 0x0F) << 2),
            '=',
        ]
    } else {
        encode3(b[0], b[1], b[2]) + spec_b64_encode(b.skip(3))
    }
}

/// An encoding is made of whole groups: its length is a multiple of four,
/// and it is empty exactly when the input was.
pub proof fn lemma_encode_len(b: Seq<u8>)
    ensures
        spec_b64_encode(b).len() % 4 == 0,
        spec_b64_encode(b).len() == 0 <==> b.len() == 0,
    decreases b.len(),
{
    if b.len() >= 3 {
        lemma_encode_len(b.skip(3));
    }
}

/// The six-bit values cut out of three bytes all fit the alphabet.
proof fn lemma_split_bounds(b0: u8, b1: u8)
    ensures
        b0 >> 2 < 64,
        (b0 & 0x03) << 4 < 64,
        ((b0 & 0x03) << 4) | (b1 >> 4) < 64,
        (b0 & 0x0F) << 2 < 64,
        ((b0 & 0x0F) << 2) | (b1 >> 6) < 64,
        b0 & 0x3F < 64,
{
    assert(b0 >> 2 < 64) by (bit_vector);
    assert((b0 & 0x03) << 4 < 64) by (bit_vector);
    assert(((b0 & 0x03) << 4) | (b1 >> 4) < 64) by (bit_vector);
    assert((b0 & 0x0F) << 2 < 64) by (bit_vector);
    assert(((b0 & 0x0F) << 2) | (b1 >> 6) < 64) by (bit_vector);
    assert(b0 & 0x3F < 64) by (bit_vector);
}

/// Reassembling the six-bit values cut out of three bytes gives the bytes
/// back.
proof fn lemma_regroup_bits3(b0: u8, b1: u8, b2: u8)
    ensures
        ((b0 >> 2) << 2) | ((((b0 & 0x03) << 4) | (b1 >> 4)) >> 4) == b0,
        (((((b0 & 0x03) << 4) | (b1 >> 4)) & 0x0F) << 4) | ((((b1 & 0x0F) << 2) | (b2 >> 6))
            >> 2) == b1,
        (((((b1 & 0x0F) << 2) | (b2 >> 6)) & 0x03) << 6) | (b2 & 0x3F) == b2,
{
    assert(((b0 >> 2) << 2) | ((((b0 & 0x03) << 4) | (b1 >> 4)) >> 4) == b0) by (bit_vector);
    assert((((((b0 & 0x03) << 4) | (b1 >> 4)) & 0x0F) << 4) | ((((b1 & 0x0F) << 2) | (b2 >> 6))
        >> 2) == b1) by (bit_vector);
    assert((((((b1 & 0x0F) << 2) | (b2 >> 6)) & 0x03) << 6) | (b2 & 0x3F) == b2) by (bit_vector);
}

/// As [`lemma_regroup_bits3`], for an encoding that carried two bytes: the
/// unused low bits of the last data value are zero, and the two bytes come
/// back.
proof fn lemma_regroup_bits2(b0: u8, b1: u8)
    ensures
        ((b0 >> 2) << 2) | ((((b0 & 0x03) << 4) | (b1 >> 4)) >> 4) == b0,
        (((((b0 & 0x03) << 4) | (b1 >> 4)) & 0x0F) << 4) | (((b1 & 0x0F) << 2) >> 2) == b1,
        (((b1 & 0x0F) << 2) & 0x03) == 0,
{
    assert(((b0 >> 2) << 2) | ((((b0 & 0x03) << 4) | (b1 >> 4)) >> 4) == b0) by (bit_vector);
    assert((((((b0 & 0x03) << 4) | (b1 >> 4)) & 0x0F) << 4) | (((b1 & 0x0F) << 2) >> 2) == b1)
        by (bit_vector);
    assert((((b1 & 0x0F) << 2) & 0x03) == 0) by (bit_vector);
}

/// As [`lemma_regroup_bits3`], for an encoding that carried one byte.
proof fn lemma_regroup_bits1(b0: u8)
    ensures
        ((b0 >> 2) << 2) | (((b0 & 0x03) << 4) >> 4) == b0,
        (((b0 & 0x03) << 4) & 0x0F) == 0,
{
    assert(((b0 >> 2) << 2) | (((b0 & 0x03) << 4) >> 4) == b0) by (bit_vector);
    assert((((b0 & 0x03) << 4) & 0x0F) == 0) by (bit_vector);
}

/// Decoding inverts encoding: every byte sequence comes back unchanged from
/// its own standard padded encoding.
pub proof fn lemma_b64_round_trip(b: Seq<u8>)
    ensures
        spec_b64_decode(spec_b64_encode(b)) == Some(b),
    decreases b.len(),
{
    let s = spec_b64_encode(b);
    if b.len() == 0 {
        assert(b =~= Seq::<u8>::empty());
    } else if b.len() == 1 {
        lemma_split_bounds(b[0], 0);
        lemma_b64_char_value(b[0] >> 2);
        lemma_b64_char_value((b[0] & 0x03) << 4);
        lemma_regroup_bits1(b[0]);
        assert(b64_value('=') == -1);
        assert(spec_b64_decode(s) matches Some(d) && d =~= b);
    } else if b.len() == 2 {
        lemma_split_bounds(b[0], b[1]);
        lemma_split_bounds(b[1], 0);
        lemma_b64_char_value(b[0] >> 2);
        lemma_b64_char_value(((b[0] & 0x03) << 4) | (b[1] >> 4));
        lemma_b64_char_value((b[1] & 0x0F) << 2);
        lemma_regroup_bits2(b[0], b[1]);
        assert(b64_value('=') == -1);
        assert(spec_b64_decode(s) matches Some(d) && d =~= b);
    } else {
        let rest = b.skip(3);
        let group = encode3(b[0], b[1], b[2]);
        lemma_split_bounds(b[0], b[1]);
        lemma_split_bounds(b[1], b[2]);
        lemma_split_bounds(b[2], 0);
        lemma_b64_char_value(b[0] >> 2);
        lemma_b64_char_value(((b[0] & 0x03) << 4) | (b[1] >> 4));
        lemma_b64_char_value(((b[1] & 0x0F) << 2) | (b[2] >> 6));
        lemma_b64_char_value(b[2] & 0x3F);
        lemma_regroup_bits3(b[0], b[1], b[2]);
        lemma_encode_len(rest);
        lemma_b64_round_trip(rest);
        assert(s == group + spec_b64_encode(rest));
        assert(s[0] == group[0] && s[1] == group[1] && s[2] == group[2] && s[3] == group[3]);
        assert(s.skip(4) =~= spec_b64_encode(rest));
        let d0 = decode4(s[0], s[1], s[2], s[3]);
        assert(d0 =~= seq![b[0], b[1], b[2]]);
        if rest.len() == 0 {
            assert(s.len() == 4);
            assert(spec_b64_decode(s) == decode_last4(s[0], s[1], s[2], s[3]));
            assert(spec_b64_decode(s) matches Some(d) && d =~= b);
        } else {
            assert(s.len() > 4 && s.len() % 4 == 0);
            assert(spec_b64_decode(s.skip(4)) == Some(rest));
            assert(spec_b64_decode(s) matches Some(d) && d == d0 + rest);
            assert(d0 + rest =~= b);
        }
    }
}

/// Relies on the `base64` crate: `STANDARD.decode` decodes the standard
/// alphabet with canonical `=` padding required, rejects every other input
/// (stray characters, wrong padding, nonzero unused bits), and returns the
/// carried bytes. The crate reads the text's UTF-8 bytes; the contract
/// speaks of its characters, which agree with the bytes on ASCII, and a
/// character outside ASCII yields only bytes that the crate rejects.
#[verifier::external_body]
pub(crate) fn decode_standard(s: &str) -> (r: Option<Vec<u8>>)
    ensures
        r matches Some(v) ==> spec_b64_decode(s@) == Some(v@),
        r is None ==> spec_b64_decode(s@) is None,
{
    base64::Engine::decode(&base64::engine::general_purpose::STANDARD, s.as_bytes()).ok()
}

} // verus!
