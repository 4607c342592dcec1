//! The wire format, stated over byte sequences.
//!
//! Encoders are described by the bytes they append and whether they succeed;
//! decoders by what they read off the front of a byte sequence and what they
//! leave behind.

use vstd::prelude::*;
use vstd::utf8::{encode_utf8, decode_utf8, valid_utf8};
use crate::buffer::{be16, be16_value, be32_value};
use crate::error::Error;

verus! {

/// What reading a value off the front of a byte sequence gives.
pub enum Decoded<T> {
    /// The value, and the bytes after it.
    Value(T, Seq<u8>),
    /// Malformed input: an error is reported, these bytes are left.
    Invalid(Seq<u8>),
    /// The input ends where a fixed-size field is due.
    Truncated,
}

/// Why an internal decoder stopped.
#[derive(Debug)]
pub enum DecodeFault {
    /// The input is malformed; the error says how.
    Malformed(Error),
    /// The input ends where a fixed-size field is due.
    Truncated,
}

/// The bytes an encoder appended so far and whether every step succeeded.
pub type Out = (Seq<u8>, bool);

/// Nothing appended yet.
pub open spec fn start() -> Out {
    (Seq::empty(), true)
}

/// Appends `piece` after `o`; a failed piece (`None`) or an earlier failure
/// stops the output where it is.
pub open spec fn then(o: Out, piece: Option<Seq<u8>>) -> Out {
    if !o.1 {
        o
    } else {
        match piece {
            Some(b) => (o.0 + b, true),
            None => (o.0, false),
        }
    }
}

/// Runs `b` after `a`: a failure in `a` stops the output there.
pub open spec fn join(a: Out, b: Out) -> Out {
    if a.1 {
        (a.0 + b.0, b.1)
    } else {
        a
    }
}

/// A piece taken as an output of its own.
pub open spec fn piece(p: Option<Seq<u8>>) -> Out {
    match p {
        Some(b) => (b, true),
        None => (Seq::empty(), false),
    }
}

/// A one-byte piece.
pub open spec fn byte_piece(b: u8) -> Option<Seq<u8>> {
    Some(seq![b])
}

/// Nothing to append.
pub open spec fn no_piece() -> Option<Seq<u8>> {
    Some(Seq::empty())
}

/// A length-prefixed binary field: two length bytes (big-endian) then the
/// data; fails above 65535 bytes.
pub open spec fn bytes_field(d: Seq<u8>) -> Option<Seq<u8>> {
    if d.len() <= 65535 {
        Some(be16(d.len() as u16) + d)
    } else {
        None
    }
}

/// A length-prefixed UTF-8 string field; fails when its UTF-8 encoding is
/// longer than 65535 bytes.
pub open spec fn string_field(s: Seq<char>) -> Option<Seq<u8>> {
    bytes_field(encode_utf8(s))
}

/// `128` to the power `i`.
pub open spec fn pow128(i: nat) -> nat
    decreases i,
{
    if i == 0 {
        1
    } else {
        128 * pow128((i - 1) as nat)
    }
}

/// The largest remaining length the fixed header can carry.
pub open spec fn max_remaining_length() -> nat {
    268_435_455
}

/// The variable-length encoding of a remaining length: seven bits per byte,
/// least significant group first, the top bit set on every byte but the last.
pub open spec fn rl_encode(n: nat) -> Seq<u8>
    decreases n,
{
    if n < 128 {
        seq![n as u8]
    } else {
        seq![(n % 128 + 128) as u8] + rl_encode(n / 128)
    }
}

/// Reading the remaining length from position `i` on: the value the bytes
/// from `i` contribute and the number of bytes read in all. At most four
/// bytes are read: running out of input fails, and so does a fourth byte
/// that carries the continuation bit.
pub open spec fn rl_parse(s: Seq<u8>, i: nat) -> Option<(nat, nat)>
    decreases 4 - i,
{
    if i >= 4 {
        None
    } else if s.len() <= i {
        None
    } else {
        let low = (s[i as int] % 128) as nat;
        if s[i as int] < 128 {
            Some((low * pow128(i), i + 1))
        } else {
            match rl_parse(s, i + 1) {
                Some((v, n)) => Some((low * pow128(i) + v, n)),
                None => None,
            }
        }
    }
}

/// Whether the first four bytes of `s` all carry the continuation bit: a
/// remaining length longer than the four bytes allowed.
pub open spec fn rl_malformed(s: Seq<u8>) -> bool {
    s.len() >= 4 && s[0] >= 128 && s[1] >= 128 && s[2] >= 128 && s[3] >= 128
}

/// Decoding a remaining length off the front of `s`. A malformed length
/// has consumed its four bytes; running out of input consumes every byte.
pub open spec fn rl_decode(s: Seq<u8>) -> Decoded<nat> {
    match rl_parse(s, 0) {
        Some((v, n)) => Decoded::Value(v, s.skip(n as int)),
        None => if rl_malformed(s) {
            Decoded::Invalid(s.skip(4))
        } else {
            Decoded::Invalid(Seq::empty())
        },
    }
}

/// Reading one byte.
pub open spec fn read_u8(s: Seq<u8>) -> Decoded<u8> {
    if s.len() < 1 {
        Decoded::Truncated
    } else {
        Decoded::Value(s[0], s.skip(1))
    }
}

/// Reading a big-endian 16-bit value.
pub open spec fn read_u16(s: Seq<u8>) -> Decoded<u16> {
    if s.len() < 2 {
        Decoded::Truncated
    } else {
        Decoded::Value(be16_value(s[0], s[1]), s.skip(2))
    }
}

/// Reading a big-endian 32-bit value.
pub open spec fn read_u32(s: Seq<u8>) -> Decoded<u32> {
    if s.len() < 4 {
        Decoded::Truncated
    } else {
        Decoded::Value(be32_value(s[0], s[1], s[2], s[3]), s.skip(4))
    }
}

/// Reading a length-prefixed UTF-8 string. A missing length, a length
/// beyond the input, and invalid UTF-8 are reported as errors.
pub open spec fn read_string(s: Seq<u8>) -> Decoded<Seq<char>> {
    if s.len() < 2 {
        Decoded::Invalid(s)
    } else {
        let n = be16_value(s[0], s[1]) as int;
        if s.len() - 2 < n {
            Decoded::Invalid(s.skip(2))
        } else {
            let data = s.subrange(2, 2 + n);
            if valid_utf8(data) {
                Decoded::Value(decode_utf8(data), s.skip(2 + n))
            } else {
                Decoded::Invalid(s.skip(2 + n))
            }
        }
    }
}

/// Reading length-prefixed binary data. A length beyond the input is an
/// error; a missing length is a truncation.
pub open spec fn read_bytes(s: Seq<u8>) -> Decoded<Seq<u8>> {
    if s.len() < 2 {
        Decoded::Truncated
    } else {
        let n = be16_value(s[0], s[1]) as int;
        if s.len() - 2 < n {
            Decoded::Invalid(s.skip(2))
        } else {
            Decoded::Value(s.subrange(2, 2 + n), s.skip(2 + n))
        }
    }
}

/// Applies `f` to a decoded value, keeping what is left and any failure.
pub open spec fn map_dec<A, B>(d: Decoded<A>, f: spec_fn(A) -> B) -> Decoded<B> {
    match d {
        Decoded::Value(a, rest) => Decoded::Value(f(a), rest),
        Decoded::Invalid(rest) => Decoded::Invalid(rest),
        Decoded::Truncated => Decoded::Truncated,
    }
}

/// A block introduced by a length byte: a zero length gives `empty`
/// without reading further; otherwise exactly that many bytes are read by
/// `parse` and the rest follows the block. A failure inside the block leaves
/// the bytes after it.
pub open spec fn block_dec<T>(s: Seq<u8>, parse: spec_fn(Seq<u8>) -> Decoded<T>, empty: T) -> Decoded<T> {
    match read_u8(s) {
        Decoded::Value(n, t) => if n == 0 {
            Decoded::Value(empty, t)
        } else if t.len() < n {
            Decoded::Truncated
        } else {
            match parse(t.take(n as int)) {
                Decoded::Value(p, _) => Decoded::Value(p, t.skip(n as int)),
                Decoded::Invalid(_) => Decoded::Invalid(t.skip(n as int)),
                Decoded::Truncated => Decoded::Truncated,
            }
        },
        Decoded::Invalid(r) => Decoded::Invalid(r),
        Decoded::Truncated => Decoded::Truncated,
    }
}

/// How a decoder's result reflects the reading `d` of its input: the value
/// (seen through `view`) and the bytes left, a malformed-packet error and the
/// bytes left, or a truncation.
pub open spec fn outcome<T, V>(
    d: Decoded<V>,
    r: Result<T, DecodeFault>,
    view: spec_fn(T) -> V,
    after: Seq<u8>,
) -> bool {
    match d {
        Decoded::Value(v, rest) => (r matches Ok(x) && view(x) == v) && after == rest,
        Decoded::Invalid(rest) => (r matches Err(DecodeFault::Malformed(Error::InvalidPacket(_))))
            && after == rest,
        Decoded::Truncated => r matches Err(DecodeFault::Truncated),
    }
}

/// The same for a public decoder, whose inputs are never truncated.
pub open spec fn settled<T, V>(
    d: Decoded<V>,
    r: crate::error::Result<T>,
    view: spec_fn(T) -> V,
    after: Seq<u8>,
) -> bool {
    match d {
        Decoded::Value(v, rest) => (r matches Ok(x) && view(x) == v) && after == rest,
        Decoded::Invalid(rest) => (r matches Err(Error::InvalidPacket(_))) && after == rest,
        Decoded::Truncated => r matches Err(Error::InvalidPacket(m)) && m@ == "Truncated packet"@,
    }
}

/// A successful read leaves a proper suffix behind.
pub open spec fn shrinks<T>(d: Decoded<T>, s: Seq<u8>) -> bool {
    d matches Decoded::Value(_, rest) ==> rest.len() < s.len()
}

} // verus!
