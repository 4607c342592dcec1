//! Encoding and decoding of strings, binary data and the remaining length.

use vstd::prelude::*;
use bytes::{Bytes, BytesMut};
use crate::buffer::{
    bytes_mut_contents, bytes_contents, buffer_limit, be16_value, lemma_be16_roundtrip, bm_len,
    bm_put_u16, bm_put_u8, bm_put_slice, bm_get_u8, bm_get_u16, bm_get_u32, bm_byte_at,
    bm_advance, bm_split_to, bm_freeze, bm_to_vec, bm_new,
};
use crate::error::{Error, Result, decimal};
use vstd::utf8::{valid_utf8, encode_utf8};
use crate::text::{owned, string_from_utf8, utf8_error_text, need_have_text};
use super::spec::{
    Decoded, DecodeFault, string_field, bytes_field, rl_encode, rl_parse, rl_decode, pow128,
    max_remaining_length, rl_malformed, read_u8, read_u16, read_u32, read_string, read_bytes,
};

verus! {

/// Encodes a UTF-8 string with a two-byte big-endian length prefix. Fails,
/// writing nothing, when the string's UTF-8 form is longer than 65535 bytes.
pub fn encode_string(s: &str, buf: &mut BytesMut) -> (r: Result<()>)
    requires
        string_field(s@) matches Some(f) ==> bytes_mut_contents(*old(buf)).len() + f.len()
            <= buffer_limit(),
    ensures
        string_field(s@) matches Some(f) ==> r is Ok && bytes_mut_contents(*final(buf))
            == bytes_mut_contents(*old(buf)) + f,
        string_field(s@) is None ==> (r matches Err(Error::InvalidPacket(m)) && m@
            == "String too long"@) && bytes_mut_contents(*final(buf)) == bytes_mut_contents(
            *old(buf),
        ),
{
    let bytes = s.as_bytes();
    if bytes.len() > 65535 {
        return Err(Error::InvalidPacket(owned("String too long")));
    }
    bm_put_u16(buf, bytes.len() as u16);
    bm_put_slice(buf, bytes);
    Ok(())
}

/// A string field is the length of the string's UTF-8 form in two bytes,
/// high byte first, then that UTF-8 form; a form longer than 65535 bytes
/// has no field.
pub proof fn lemma_string_field_bytes(s: Seq<char>)
    ensures
        ({
            let u = encode_utf8(s);
            &&& u.len() <= 65535 ==> string_field(s) == Some(seq![(u.len() / 256) as u8, (u.len() % 256) as u8] + u)
            &&& u.len() > 65535 ==> string_field(s) is None
        }),
{
}

/// Decodes a length-prefixed UTF-8 string: fails when the length prefix is
/// missing, when fewer bytes than it declares are left, or when the bytes are
/// not valid UTF-8.
pub fn decode_string(buf: &mut BytesMut) -> (r: Result<String>)
    ensures
        match read_string(bytes_mut_contents(*old(buf))) {
            Decoded::Value(v, rest) => (r matches Ok(s) && s@ == v) && bytes_mut_contents(
                *final(buf),
            ) == rest,
            Decoded::Invalid(rest) => (r matches Err(Error::InvalidPacket(_)))
                && bytes_mut_contents(*final(buf)) == rest,
            Decoded::Truncated => false,
        },
        ({
            let s0 = bytes_mut_contents(*old(buf));
            &&& s0.len() < 2 ==> (r matches Err(Error::InvalidPacket(m)) && m@
                == "Insufficient data for string length"@)
            &&& (s0.len() >= 2 && s0.len() - 2 < be16_value(s0[0], s0[1])) ==> (r matches Err(
                Error::InvalidPacket(m),
            ) && m@ == "Insufficient data for string: need "@ + decimal(be16_value(s0[0], s0[1]) as nat)
                + ", have "@ + decimal((s0.len() - 2) as nat))
            &&& (s0.len() >= 2 && s0.len() - 2 >= be16_value(s0[0], s0[1]) && !valid_utf8(
                s0.subrange(2, 2 + be16_value(s0[0], s0[1])),
            )) ==> (r matches Err(Error::InvalidPacket(m)) && m@.len() >= 15 && m@.subrange(0, 15)
                == "Invalid UTF-8: "@)
        }),
{
    if bm_len(buf) < 2 {
        return Err(Error::InvalidPacket(owned("Insufficient data for string length")));
    }
    let len = bm_get_u16(buf) as usize;
    let have = bm_len(buf);
    if have < len {
        return Err(Error::InvalidPacket(need_have_text(len, have)));
    }
    let ghost s0 = bytes_mut_contents(*old(buf));
    let part = bm_split_to(buf, len);
    proof {
        assert(bytes_mut_contents(part) =~= s0.subrange(2, 2 + len));
        assert(bytes_mut_contents(*buf) =~= s0.skip(2 + len));
    }
    match string_from_utf8(bm_to_vec(&part)) {
        Ok(s) => Ok(s),
        Err(e) => {
            let m = utf8_error_text("Invalid UTF-8: ", &e);
            proof {
                reveal_strlit("Invalid UTF-8: ");
            }
            Err(Error::InvalidPacket(m))
        },
    }
}

/// Encodes binary data with a two-byte big-endian length prefix. Fails,
/// writing nothing, above 65535 bytes.
pub fn encode_bytes(data: &[u8], buf: &mut BytesMut) -> (r: Result<()>)
    requires
        bytes_field(data@) matches Some(f) ==> bytes_mut_contents(*old(buf)).len() + f.len()
            <= buffer_limit(),
    ensures
        bytes_field(data@) matches Some(f) ==> r is Ok && bytes_mut_contents(*final(buf))
            == bytes_mut_contents(*old(buf)) + f,
        bytes_field(data@) is None ==> (r matches Err(Error::InvalidPacket(m)) && m@
            == "Data too long"@) && bytes_mut_contents(*final(buf)) == bytes_mut_contents(
            *old(buf),
        ),
{
    if data.len() > 65535 {
        return Err(Error::InvalidPacket(owned("Data too long")));
    }
    bm_put_u16(buf, data.len() as u16);
    bm_put_slice(buf, data);
    Ok(())
}

/// Decodes length-prefixed binary data; fails when fewer bytes than the
/// length declares are left. The length prefix itself must be there.
pub fn decode_bytes(buf: &mut BytesMut) -> (r: Result<Bytes>)
    requires
        bytes_mut_contents(*old(buf)).len() >= 2,
    ensures
        match read_bytes(bytes_mut_contents(*old(buf))) {
            Decoded::Value(v, rest) => (r matches Ok(b) && bytes_contents(b) == v)
                && bytes_mut_contents(*final(buf)) == rest,
            Decoded::Invalid(rest) => (r matches Err(Error::InvalidPacket(m)) && m@
                == "Insufficient data for bytes"@) && bytes_mut_contents(*final(buf)) == rest,
            Decoded::Truncated => false,
        },
{
    let ghost s0 = bytes_mut_contents(*old(buf));
    let len = bm_get_u16(buf) as usize;
    if bm_len(buf) < len {
        return Err(Error::InvalidPacket(owned("Insufficient data for bytes")));
    }
    let part = bm_split_to(buf, len);
    proof {
        assert(bytes_mut_contents(part) =~= s0.subrange(2, 2 + len));
        assert(bytes_mut_contents(*buf) =~= s0.skip(2 + len));
    }
    Ok(bm_freeze(part))
}

/// A remaining length is encoded in at most as many bytes as its base-128
/// digits, so at most four bytes up to the largest allowed value.
pub proof fn lemma_rl_encode_len(n: nat, k: nat)
    requires
        k >= 1,
        n < pow128(k),
    ensures
        rl_encode(n).len() <= k,
        rl_encode(n).len() >= 1,
    decreases n,
{
    if n >= 128 {
        assert(k >= 2) by {
            if k == 1 {
                assert(pow128(1) == 128 * pow128(0));
            }
        }
        assert(n / 128 < pow128((k - 1) as nat)) by {
            assert(pow128(k) == 128 * pow128((k - 1) as nat));
        }
        lemma_rl_encode_len(n / 128, (k - 1) as nat);
    }
}

/// The powers of 128 that the remaining length uses.
pub proof fn lemma_pow128_values()
    ensures
        pow128(0) == 1,
        pow128(1) == 128,
        pow128(2) == 16384,
        pow128(3) == 2097152,
        pow128(4) == 268435456,
{
    reveal_with_fuel(pow128, 5);
}

/// Reading `rl_encode(m)` placed at position `i` gives `m` scaled by the
/// weight of position `i`.
proof fn lemma_rl_parse_encoded(s: Seq<u8>, i: nat, m: nat, rest: Seq<u8>)
    requires
        i < 4,
        s.len() >= i,
        s.skip(i as int) == rl_encode(m) + rest,
        i + rl_encode(m).len() <= 4,
    ensures
        rl_parse(s, i) == Some((m * pow128(i), i + rl_encode(m).len())),
    decreases m,
{
    let e = rl_encode(m);
    lemma_pow128_grows(m);
    lemma_rl_encode_len(m, m + 1);
    assert(s.skip(i as int).len() == s.len() - i);
    assert(s[i as int] == s.skip(i as int)[0]);
    assert(s[i as int] == e[0]);
    if m < 128 {
        assert(e == seq![m as u8]);
        assert(s[i as int] == m as u8);
        assert(s[i as int] % 128 == m);
    } else {
        let tail = rl_encode(m / 128);
        assert(e == seq![(m % 128 + 128) as u8] + tail);
        assert(s[i as int] == (m % 128 + 128) as u8);
        assert(s[i as int] % 128 == m % 128);
        assert(s.skip((i + 1) as int) =~= tail + rest) by {
            assert(s.skip((i + 1) as int) =~= s.skip(i as int).skip(1));
            assert((e + rest).skip(1) =~= tail + rest);
        }
        lemma_rl_parse_encoded(s, i + 1, m / 128, rest);
        let p = pow128(i);
        let p1 = pow128(i + 1);
        let q = m / 128;
        let r = m % 128;
        assert(p1 == 128 * p);
        assert(r * p + q * p1 == m * p) by (nonlinear_arith)
            requires
                p1 == 128 * p,
                m == q * 128 + r,
        ;
    }
}

/// `pow128(n)` exceeds `n`.
proof fn lemma_pow128_grows(n: nat)
    ensures
        n < pow128(n),
    decreases n,
{
    if n > 0 {
        lemma_pow128_grows((n - 1) as nat);
    }
}

/// Decoding an encoded remaining length gives the length back and leaves the
/// bytes after it; the encoding takes one to four bytes.
pub proof fn lemma_remaining_length_roundtrip(n: nat, rest: Seq<u8>)
    requires
        n <= max_remaining_length(),
    ensures
        rl_decode(rl_encode(n) + rest) == Decoded::Value(n, rest),
        1 <= rl_encode(n).len() <= 4,
{
    lemma_pow128_values();
    lemma_rl_encode_len(n, 4);
    let s = rl_encode(n) + rest;
    assert(s.skip(0) =~= s);
    lemma_rl_parse_encoded(s, 0, n, rest);
    assert(s.skip(rl_encode(n).len() as int) =~= rest);
}

/// The shape of an encoded remaining length: every byte but the last
/// carries the continuation bit, the last does not, and one byte more is
/// needed for each further base-128 digit.
proof fn lemma_rl_encode_shape(n: nat)
    ensures
        rl_encode(n).len() >= 1,
        rl_encode(n).last() < 128,
        forall|i: int| 0 <= i < rl_encode(n).len() - 1 ==> #[trigger] rl_encode(n)[i] >= 128,
        n < 128 ==> rl_encode(n).len() == 1,
        n >= 128 ==> rl_encode(n).len() == 1 + rl_encode(n / 128).len(),
    decreases n,
{
    if n >= 128 {
        lemma_rl_encode_shape(n / 128);
        let t = rl_encode(n / 128);
        let e = seq![(n % 128 + 128) as u8] + t;
        assert(rl_encode(n) == e);
        assert forall|i: int| 0 <= i < e.len() - 1 implies #[trigger] e[i] >= 128 by {
            if i > 0 {
                assert(e[i] == t[i - 1]);
            }
        }
        assert(e.last() == t.last());
    }
}

/// A remaining length up to 268,435,455 is written in one byte below 128,
/// two below 16,384, three below 2,097,152 and four above; every byte but
/// the last has its top bit set and the last has it clear.
pub proof fn lemma_remaining_length_bytes(n: nat)
    requires
        n <= max_remaining_length(),
    ensures
        rl_encode(n).len() == (if n < 128 {
            1nat
        } else if n < 16384 {
            2nat
        } else if n < 2097152 {
            3nat
        } else {
            4nat
        }),
        forall|i: int| 0 <= i < rl_encode(n).len() - 1 ==> #[trigger] rl_encode(n)[i] >= 128,
        rl_encode(n)[rl_encode(n).len() - 1] < 128,
{
    lemma_rl_encode_shape(n);
    if n >= 128 {
        let n1 = n / 128;
        lemma_rl_encode_shape(n1);
        if n1 >= 128 {
            let n2 = n1 / 128;
            lemma_rl_encode_shape(n2);
            if n2 >= 128 {
                let n3 = n2 / 128;
                lemma_rl_encode_shape(n3);
                assert(n3 < 128);
            }
        }
    }
}

/// Encodes a remaining length in the variable-length format; fails, writing
/// nothing, above 268,435,455.
pub fn encode_remaining_length(len: usize, buf: &mut BytesMut) -> (r: Result<()>)
    requires
        len <= max_remaining_length() ==> bytes_mut_contents(*old(buf)).len() + rl_encode(
            len as nat,
        ).len() <= buffer_limit(),
    ensures
        len <= max_remaining_length() ==> r is Ok && bytes_mut_contents(*final(buf))
            == bytes_mut_contents(*old(buf)) + rl_encode(len as nat),
        len > max_remaining_length() ==> (r matches Err(Error::InvalidPacket(m)) && m@
            == "Remaining length too large"@) && bytes_mut_contents(*final(buf))
            == bytes_mut_contents(*old(buf)),
{
    if len > 268_435_455 {
        return Err(Error::InvalidPacket(owned("Remaining length too large")));
    }
    let ghost target = bytes_mut_contents(*old(buf)) + rl_encode(len as nat);
    let mut value = len;
    loop
        invariant_except_break
            bytes_mut_contents(*buf) + rl_encode(value as nat) == target,
        invariant
            target.len() <= buffer_limit(),
        ensures
            bytes_mut_contents(*buf) == target,
        decreases value,
    {
        let ghost before = bytes_mut_contents(*buf);
        proof {
            assert(before.len() + rl_encode(value as nat).len() == target.len());
            lemma_pow128_grows(value as nat);
            lemma_rl_encode_len(value as nat, value as nat + 1);
        }
        let mut byte = (value % 128) as u8;
        let next = value / 128;
        if next > 0 {
            byte = byte + 128;
        }
        proof {
            if value < 128 {
                assert(rl_encode(value as nat) == seq![value as u8]);
            } else {
                assert(rl_encode(value as nat) == seq![(value % 128 + 128) as u8] + rl_encode(
                    next as nat,
                ));
            }
            assert(before.len() + 1 <= target.len());
        }
        bm_put_u8(buf, byte);
        value = next;
        proof {
            if next == 0 {
                assert(bytes_mut_contents(*buf) =~= target);
            } else {
                assert(bytes_mut_contents(*buf) + rl_encode(value as nat) =~= target);
            }
        }
        if value == 0 {
            break;
        }
    }
    Ok(())
}

/// The value of the first `i` bytes of a remaining length.
pub open spec fn rl_acc(s: Seq<u8>, i: nat) -> nat
    decreases i,
{
    if i == 0 {
        0
    } else {
        rl_acc(s, (i - 1) as nat) + ((s[i - 1] % 128) as nat) * pow128((i - 1) as nat)
    }
}

/// When the first `i` bytes all carry the continuation bit, reading from the
/// start is reading from `i` plus the value of those bytes.
proof fn lemma_rl_split(s: Seq<u8>, i: nat)
    requires
        i <= 4,
        s.len() >= i,
        forall|j: int| 0 <= j < i ==> s[j] >= 128,
    ensures
        rl_parse(s, 0) == match rl_parse(s, i) {
            Some((v, n)) => Some((rl_acc(s, i) + v, n)),
            None => None::<(nat, nat)>,
        },
    decreases i,
{
    if i > 0 {
        lemma_rl_split(s, (i - 1) as nat);
    }
}

/// Decodes the variable-length remaining length: reads at most four bytes,
/// stopping after the first byte without the continuation bit; fails when the
/// input runs out first, and when the fourth byte still carries the
/// continuation bit.
pub fn decode_remaining_length(buf: &mut BytesMut) -> (r: Result<usize>)
    ensures
        match rl_decode(bytes_mut_contents(*old(buf))) {
            Decoded::Value(v, rest) => (r matches Ok(x) && x == v) && bytes_mut_contents(
                *final(buf),
            ) == rest,
            Decoded::Invalid(rest) => (r matches Err(Error::InvalidPacket(m)) && m@ == (if rl_malformed(
                bytes_mut_contents(*old(buf)),
            ) {
                "Malformed remaining length"@
            } else {
                "Insufficient data for remaining length"@
            })) && bytes_mut_contents(*final(buf)) == rest,
            Decoded::Truncated => false,
        },
{
    let ghost s0 = bytes_mut_contents(*old(buf));
    let mut value: usize = 0;
    let mut multiplier: usize = 1;
    let mut i: usize = 0;
    proof {
        lemma_pow128_values();
        assert(s0.skip(0) =~= s0);
    }
    while i < 4
        invariant
            s0 == bytes_mut_contents(*old(buf)),
            i <= 4,
            s0.len() >= i,
            bytes_mut_contents(*buf) == s0.skip(i as int),
            forall|j: int| 0 <= j < i ==> s0[j] >= 128,
            value == rl_acc(s0, i as nat),
            multiplier == pow128(i as nat),
            value < pow128(i as nat),
            pow128(0) == 1,
            pow128(1) == 128,
            pow128(2) == 16384,
            pow128(3) == 2097152,
            pow128(4) == 268435456,
        decreases 4 - i,
    {
        if bm_len(buf) == 0 {
            proof {
                lemma_rl_split(s0, i as nat);
                assert(s0.len() == i);
                assert(rl_parse(s0, i as nat) is None);
                assert(rl_parse(s0, 0) is None);
                assert(bytes_mut_contents(*buf) =~= Seq::<u8>::empty());
                assert(!rl_malformed(s0));
                assert(rl_decode(s0) == Decoded::<nat>::Invalid(Seq::empty()));
            }
            return Err(Error::InvalidPacket(owned("Insufficient data for remaining length")));
        }
        let byte = bm_byte_at(buf, 0);
        bm_advance(buf, 1);
        proof {
            assert(byte == s0[i as int]);
            assert(bytes_mut_contents(*buf) =~= s0.skip(i + 1));
            assert(pow128((i + 1) as nat) == 128 * pow128(i as nat));
            assert(value + ((byte % 128) as nat) * multiplier < 128 * multiplier) by (nonlinear_arith)
                requires value < multiplier, byte % 128 < 128;
        }
        value = value + ((byte % 128) as usize) * multiplier;
        multiplier = multiplier * 128;
        if byte < 128 {
            proof {
                lemma_rl_split(s0, i as nat);
                assert(rl_parse(s0, i as nat) == Some(
                    (((byte % 128) as nat) * pow128(i as nat), (i + 1) as nat),
                ));
                assert(rl_parse(s0, 0) == Some((value as nat, (i + 1) as nat)));
                assert(rl_decode(s0) == Decoded::Value(value as nat, s0.skip(i + 1)));
            }
            return Ok(value);
        }
        i = i + 1;
    }
    proof {
        lemma_rl_split(s0, 4);
        assert(rl_malformed(s0));
    }
    Err(Error::InvalidPacket(owned("Malformed remaining length")))
}

/// Reading a remaining length looks at four bytes at most: the first four
/// bytes (or all, when there are fewer) read the same as the whole input.
proof fn lemma_rl_parse_prefix(t: Seq<u8>, k: nat, i: nat)
    requires
        k == (if t.len() < 4 { t.len() } else { 4 }),
        i <= 4,
    ensures
        rl_parse(t.take(k as int), i) == rl_parse(t, i),
        rl_malformed(t.take(k as int)) == rl_malformed(t),
    decreases 4 - i,
{
    if i < 4 && t.len() > i {
        lemma_rl_parse_prefix(t, k, i + 1);
        assert(t.take(k as int)[i as int] == t[i as int]);
    }
}

/// What a successful read of a remaining length consumed: at least one byte,
/// at most four, and no more than there were.
proof fn lemma_rl_parse_bounds(s: Seq<u8>, i: nat)
    requires
        i <= 4,
    ensures
        rl_parse(s, i) matches Some((v, n)) ==> i < n <= 4 && n <= s.len(),
        s.len() >= 4 && i == 0 && rl_parse(s, i) is None ==> rl_malformed(s),
        i == 0 && rl_malformed(s) ==> rl_parse(s, i) is None,
    decreases 4 - i,
{
    if i < 4 {
        lemma_rl_parse_bounds(s, i + 1);
    }
    if i == 0 && s.len() >= 4 {
        reveal_with_fuel(rl_parse, 5);
    }
}

/// The remaining length that follows the first byte of `buf`, read without
/// consuming anything: its value and the number of bytes it takes; `None`
/// when the input runs out first; an error when it is malformed.
pub fn peek_remaining_length(buf: &BytesMut) -> (r: Result<Option<(usize, usize)>>)
    requires
        bytes_mut_contents(*buf).len() >= 1,
    ensures
        ({
            let t = bytes_mut_contents(*buf).skip(1);
            match rl_decode(t) {
                Decoded::Value(v, rest) => r matches Ok(Some((x, n))) && x == v && 1 <= n <= 4 && n <= t.len()
                    && rest == t.skip(n as int) && !rl_malformed(t),
                Decoded::Invalid(_) => if rl_malformed(t) {
                    r matches Err(Error::InvalidPacket(m)) && m@ == "Malformed remaining length"@
                } else {
                    r matches Ok(None)
                },
                Decoded::Truncated => false,
            }
        }),
{
    let ghost s = bytes_mut_contents(*buf);
    let ghost t = s.skip(1);
    let n = bm_len(buf);
    let k: usize = if n - 1 < 4 { n - 1 } else { 4 };
    let mut head = bm_new();
    let mut j: usize = 0;
    while j < k
        invariant
            s == bytes_mut_contents(*buf),
            n == s.len(),
            k + 1 <= n,
            k <= 4,
            j <= k,
            bytes_mut_contents(head) == s.subrange(1, 1 + j as int),
        decreases k - j,
    {
        let b = bm_byte_at(buf, 1 + j);
        bm_put_u8(&mut head, b);
        j = j + 1;
        assert(bytes_mut_contents(head) =~= s.subrange(1, 1 + j as int));
    }
    let ghost h = bytes_mut_contents(head);
    proof {
        assert(h =~= t.take(k as int));
        lemma_rl_parse_prefix(t, k as nat, 0);
        lemma_rl_parse_bounds(t, 0);
        lemma_rl_parse_bounds(h, 0);
    }
    let before = bm_len(&head);
    match decode_remaining_length(&mut head) {
        Ok(v) => {
            let used = before - bm_len(&head);
            proof {
                let c = rl_parse(t, 0).unwrap().1;
                assert(h.skip(c as int).len() == k - c);
                assert(t.skip(c as int) == t.skip(c as int));
            }
            Ok(Some((v, used)))
        },
        Err(e) => {
            if k == 4 {
                Err(e)
            } else {
                Ok(None)
            }
        },
    }
}

/// Reads one byte; `Truncated` when there is none.
pub fn take_u8(buf: &mut BytesMut) -> (r: std::result::Result<u8, DecodeFault>)
    ensures
        match read_u8(bytes_mut_contents(*old(buf))) {
            Decoded::Value(v, rest) => r == Ok::<u8, DecodeFault>(v) && bytes_mut_contents(
                *final(buf),
            ) == rest,
            Decoded::Invalid(_) => false,
            Decoded::Truncated => r matches Err(DecodeFault::Truncated),
        },
{
    if bm_len(buf) < 1 {
        return Err(DecodeFault::Truncated);
    }
    Ok(bm_get_u8(buf))
}

/// Reads a big-endian 16-bit value; `Truncated` when two bytes are not left.
pub fn take_u16(buf: &mut BytesMut) -> (r: std::result::Result<u16, DecodeFault>)
    ensures
        match read_u16(bytes_mut_contents(*old(buf))) {
            Decoded::Value(v, rest) => r == Ok::<u16, DecodeFault>(v) && bytes_mut_contents(
                *final(buf),
            ) == rest,
            Decoded::Invalid(_) => false,
            Decoded::Truncated => r matches Err(DecodeFault::Truncated),
        },
{
    if bm_len(buf) < 2 {
        return Err(DecodeFault::Truncated);
    }
    Ok(bm_get_u16(buf))
}

/// Reads a big-endian 32-bit value; `Truncated` when four bytes are not left.
pub fn take_u32(buf: &mut BytesMut) -> (r: std::result::Result<u32, DecodeFault>)
    ensures
        match read_u32(bytes_mut_contents(*old(buf))) {
            Decoded::Value(v, rest) => r == Ok::<u32, DecodeFault>(v) && bytes_mut_contents(
                *final(buf),
            ) == rest,
            Decoded::Invalid(_) => false,
            Decoded::Truncated => r matches Err(DecodeFault::Truncated),
        },
{
    if bm_len(buf) < 4 {
        return Err(DecodeFault::Truncated);
    }
    Ok(bm_get_u32(buf))
}

/// Reads a length-prefixed string; malformed input is reported as such.
pub fn take_string(buf: &mut BytesMut) -> (r: std::result::Result<String, DecodeFault>)
    ensures
        match read_string(bytes_mut_contents(*old(buf))) {
            Decoded::Value(v, rest) => (r matches Ok(s) && s@ == v) && bytes_mut_contents(
                *final(buf),
            ) == rest,
            Decoded::Invalid(rest) => (r matches Err(DecodeFault::Malformed(Error::InvalidPacket(_))))
                && bytes_mut_contents(*final(buf)) == rest,
            Decoded::Truncated => false,
        },
{
    match decode_string(buf) {
        Ok(s) => Ok(s),
        Err(e) => Err(DecodeFault::Malformed(e)),
    }
}

/// Reads length-prefixed binary data; `Truncated` when the length prefix is
/// missing.
pub fn take_bytes(buf: &mut BytesMut) -> (r: std::result::Result<Bytes, DecodeFault>)
    ensures
        match read_bytes(bytes_mut_contents(*old(buf))) {
            Decoded::Value(v, rest) => (r matches Ok(b) && bytes_contents(b) == v)
                && bytes_mut_contents(*final(buf)) == rest,
            Decoded::Invalid(rest) => (r matches Err(DecodeFault::Malformed(Error::InvalidPacket(_))))
                && bytes_mut_contents(*final(buf)) == rest,
            Decoded::Truncated => r matches Err(DecodeFault::Truncated),
        },
{
    if bm_len(buf) < 2 {
        return Err(DecodeFault::Truncated);
    }
    match decode_bytes(buf) {
        Ok(b) => Ok(b),
        Err(e) => Err(DecodeFault::Malformed(e)),
    }
}

/// Turns an internal decoding result into a public one: a truncation
/// becomes an invalid-packet error.
pub(crate) fn settle<T>(r: std::result::Result<T, DecodeFault>) -> (out: Result<T>)
    ensures
        r matches Ok(x) ==> (out matches Ok(y) && y == x),
        r matches Err(DecodeFault::Malformed(e)) ==> (out matches Err(f) && f == e),
        r matches Err(DecodeFault::Truncated) ==> (out matches Err(Error::InvalidPacket(m)) && m@ == "Truncated packet"@),
{
    match r {
        Ok(x) => Ok(x),
        Err(DecodeFault::Malformed(e)) => Err(e),
        Err(DecodeFault::Truncated) => Err(Error::InvalidPacket(owned("Truncated packet"))),
    }
}

} // verus!
