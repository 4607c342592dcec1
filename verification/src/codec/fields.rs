//! Single property fields of MQTT 5.0 property blocks: their encodings and
//! the writers that append them.

use vstd::prelude::*;
use bytes::BytesMut;
use crate::buffer::{bytes_mut_contents, buffer_limit, be16, be32, bm_put_u8, bm_put_u16, bm_put_u32};
use crate::error::{Error, Result};
use crate::string_map::StringMap;
use crate::types::properties::{text_pairs, user_pairs};
use super::spec::{Out, start, then, join, piece, byte_piece, string_field, bytes_field};
use super::utils::{encode_string, encode_bytes};

verus! {

/// A four-byte property: the identifier, then the value big-endian; nothing
/// when the value is absent.
pub open spec fn u32_prop(id: u8, v: Option<u32>) -> Out {
    match v {
        Some(x) => (seq![id] + be32(x), true),
        None => start(),
    }
}

/// A two-byte property.
pub open spec fn u16_prop(id: u8, v: Option<u16>) -> Out {
    match v {
        Some(x) => (seq![id] + be16(x), true),
        None => start(),
    }
}

/// A one-byte property.
pub open spec fn u8_prop(id: u8, v: Option<u8>) -> Out {
    match v {
        Some(x) => (seq![id, x], true),
        None => start(),
    }
}

/// The byte that carries a flag: 1 for true, 0 for false.
pub open spec fn flag_byte(b: bool) -> u8 {
    if b {
        1
    } else {
        0
    }
}

/// A boolean property, written as one byte.
pub open spec fn bool_prop(id: u8, v: Option<bool>) -> Out {
    match v {
        Some(x) => (seq![id, flag_byte(x)], true),
        None => start(),
    }
}

/// A string property: the identifier, then the length-prefixed string. The
/// identifier is written even when the string is too long.
pub open spec fn string_prop(id: u8, v: Option<Seq<char>>) -> Out {
    match v {
        Some(x) => then(piece(byte_piece(id)), string_field(x)),
        None => start(),
    }
}

/// A binary property: the identifier, then the length-prefixed data.
pub open spec fn bytes_prop(id: u8, v: Option<Seq<u8>>) -> Out {
    match v {
        Some(x) => then(piece(byte_piece(id)), bytes_field(x)),
        None => start(),
    }
}

/// One user property: identifier `0x26`, the key, then the value.
pub open spec fn user_prop_out(e: (Seq<char>, Seq<char>)) -> Out {
    then(then(piece(byte_piece(0x26)), string_field(e.0)), string_field(e.1))
}

/// The user properties, one after the other in entry order.
pub open spec fn user_props_out(s: Seq<(Seq<char>, Seq<char>)>) -> Out
    decreases s.len(),
{
    if s.len() == 0 {
        start()
    } else {
        join(user_props_out(s.drop_last()), user_prop_out(s.last()))
    }
}

/// A property block: one length byte, then the fields. The length byte
/// carries the fields' length; it stays 0, and the block fails, when a field
/// fails or the fields take more than 255 bytes.
pub open spec fn props_block(body: Out) -> Out {
    if body.1 && body.0.len() <= 255 {
        (seq![body.0.len() as u8] + body.0, true)
    } else {
        (seq![0u8] + body.0, false)
    }
}

/// The outputs one after the other; the first failure stops the rest.
#[verifier::opaque]
pub open spec fn join_all(s: Seq<Out>) -> Out
    decreases s.len(),
{
    if s.len() == 0 {
        start()
    } else {
        join(join_all(s.drop_last()), s.last())
    }
}

/// Writing the parts one at a time: after part `k` the output is the first
/// `k + 1` parts joined, which is a prefix of the whole, and equal to the
/// whole once a part has failed.
pub proof fn lemma_join_all_step(s: Seq<Out>, k: int)
    requires
        0 <= k < s.len(),
    ensures
        join_all(s.take(k + 1)) == join(join_all(s.take(k)), s[k]),
        join_all(s.take(k + 1)).0.len() <= join_all(s).0.len(),
        !join_all(s.take(k + 1)).1 ==> join_all(s) == join_all(s.take(k + 1)),
    decreases s.len() - k,
{
    reveal(join_all);
    assert(s.take(k + 1).drop_last() =~= s.take(k));
    assert(s.take(k + 1).last() == s[k]);
    if k + 1 == s.len() {
        assert(s.take(k + 1) =~= s);
    } else {
        lemma_join_all_step(s, k + 1);
    }
}

/// Appending part `k` after the first `k` parts, none of which failed.
pub proof fn lemma_join_all_extend(s: Seq<Out>, k: int, base: Seq<u8>, before: Seq<u8>, after: Seq<u8>)
    requires
        0 <= k < s.len(),
        join_all(s.take(k)).1,
        before == base + join_all(s.take(k)).0,
        after == before + s[k].0,
    ensures
        after == base + join_all(s.take(k + 1)).0,
        join_all(s.take(k + 1)).1 == s[k].1,
        !s[k].1 ==> join_all(s) == join_all(s.take(k + 1)),
{
    lemma_join_all_step(s, k);
    assert(after =~= base + join_all(s.take(k + 1)).0);
}

/// No part written yet.
pub proof fn lemma_join_all_none(s: Seq<Out>)
    ensures
        join_all(s.take(0)) == start(),
{
    reveal(join_all);
    assert(s.take(0) =~= Seq::<Out>::empty());
}

/// All parts written.
pub proof fn lemma_join_all_full(s: Seq<Out>)
    ensures
        join_all(s.take(s.len() as int)) == join_all(s),
{
    assert(s.take(s.len() as int) =~= s);
}

/// The bytes of the parts from position `j` on, one after the other.
pub open spec fn concat_from(s: Seq<Out>, j: int) -> Seq<u8>
    decreases s.len() - j,
{
    if j >= s.len() || j < 0 {
        Seq::empty()
    } else {
        s[j].0 + concat_from(s, j + 1)
    }
}

/// When the parts all succeed, joining them is putting their bytes one
/// after the other.
pub proof fn lemma_join_all_concat(s: Seq<Out>)
    requires
        join_all(s).1,
    ensures
        join_all(s).0 == concat_from(s, 0),
{
    lemma_join_all_ok_from(s, 0);
    lemma_join_all_none(s);
    assert(Seq::<u8>::empty() + concat_from(s, 0) =~= concat_from(s, 0));
}

/// Every prefix of parts that all succeed succeeds, and its bytes followed
/// by the rest are the whole.
proof fn lemma_join_all_ok_from(s: Seq<Out>, j: int)
    requires
        join_all(s).1,
        0 <= j <= s.len(),
    ensures
        join_all(s.take(j)).1,
        join_all(s.take(j)).0 + concat_from(s, j) == join_all(s).0,
    decreases s.len() - j,
{
    if j == s.len() {
        lemma_join_all_full(s);
        assert(join_all(s.take(j)).0 + concat_from(s, j) =~= join_all(s).0);
    } else {
        lemma_join_all_ok_from(s, j + 1);
        lemma_join_all_step(s, j);
        assert(join_all(s.take(j)).0 + concat_from(s, j) =~= join_all(s.take(j + 1)).0 + concat_from(
            s,
            j + 1,
        ));
    }
}

/// Nothing appended is the neutral output.
pub proof fn lemma_join_start(a: Out)
    ensures
        join(start(), a) == a,
        join(a, start()) == a,
{
    assert(Seq::<u8>::empty() + a.0 =~= a.0);
    assert(a.0 + Seq::<u8>::empty() =~= a.0);
}

/// The user properties written so far are a prefix of all of them.
pub proof fn lemma_user_props_prefix(s: Seq<(Seq<char>, Seq<char>)>, i: int)
    requires
        0 <= i <= s.len(),
    ensures
        user_props_out(s.take(i)).0.len() <= user_props_out(s).0.len(),
        !user_props_out(s.take(i)).1 ==> user_props_out(s) == user_props_out(s.take(i)),
    decreases s.len() - i,
{
    if i < s.len() {
        lemma_user_props_prefix(s, i + 1);
        assert(s.take(i + 1).drop_last() =~= s.take(i));
        assert(s.take(i + 1).last() == s[i]);
        if i + 1 == s.len() {
            assert(s.take(i + 1) =~= s);
        }
    } else {
        assert(s.take(i) =~= s);
    }
}

/// Appends a four-byte property when present.
pub(crate) fn put_u32_prop(buf: &mut BytesMut, id: u8, v: Option<u32>)
    requires
        bytes_mut_contents(*old(buf)).len() + u32_prop(id, v).0.len() <= buffer_limit(),
    ensures
        bytes_mut_contents(*final(buf)) == bytes_mut_contents(*old(buf)) + u32_prop(id, v).0,
{
    match v {
        Some(x) => {
            let ghost b0 = bytes_mut_contents(*buf);
            bm_put_u8(buf, id);
            bm_put_u32(buf, x);
            assert(bytes_mut_contents(*buf) =~= b0 + u32_prop(id, v).0);
        },
        None => {
            assert(bytes_mut_contents(*buf) =~= bytes_mut_contents(*buf) + Seq::<u8>::empty());
        },
    }
}

/// Appends a two-byte property when present.
pub(crate) fn put_u16_prop(buf: &mut BytesMut, id: u8, v: Option<u16>)
    requires
        bytes_mut_contents(*old(buf)).len() + u16_prop(id, v).0.len() <= buffer_limit(),
    ensures
        bytes_mut_contents(*final(buf)) == bytes_mut_contents(*old(buf)) + u16_prop(id, v).0,
{
    match v {
        Some(x) => {
            let ghost b0 = bytes_mut_contents(*buf);
            bm_put_u8(buf, id);
            bm_put_u16(buf, x);
            assert(bytes_mut_contents(*buf) =~= b0 + u16_prop(id, v).0);
        },
        None => {
            assert(bytes_mut_contents(*buf) =~= bytes_mut_contents(*buf) + Seq::<u8>::empty());
        },
    }
}

/// Appends a one-byte property when present.
pub(crate) fn put_u8_prop(buf: &mut BytesMut, id: u8, v: Option<u8>)
    requires
        bytes_mut_contents(*old(buf)).len() + u8_prop(id, v).0.len() <= buffer_limit(),
    ensures
        bytes_mut_contents(*final(buf)) == bytes_mut_contents(*old(buf)) + u8_prop(id, v).0,
{
    match v {
        Some(x) => {
            let ghost b0 = bytes_mut_contents(*buf);
            bm_put_u8(buf, id);
            bm_put_u8(buf, x);
            assert(bytes_mut_contents(*buf) =~= b0 + u8_prop(id, v).0);
        },
        None => {
            assert(bytes_mut_contents(*buf) =~= bytes_mut_contents(*buf) + Seq::<u8>::empty());
        },
    }
}

/// Appends a boolean property when present.
pub(crate) fn put_bool_prop(buf: &mut BytesMut, id: u8, v: Option<bool>)
    requires
        bytes_mut_contents(*old(buf)).len() + bool_prop(id, v).0.len() <= buffer_limit(),
    ensures
        bytes_mut_contents(*final(buf)) == bytes_mut_contents(*old(buf)) + bool_prop(id, v).0,
{
    match v {
        Some(x) => {
            let ghost b0 = bytes_mut_contents(*buf);
            bm_put_u8(buf, id);
            bm_put_u8(buf, if x { 1 } else { 0 });
            assert(bytes_mut_contents(*buf) =~= b0 + bool_prop(id, v).0);
        },
        None => {
            assert(bytes_mut_contents(*buf) =~= bytes_mut_contents(*buf) + Seq::<u8>::empty());
        },
    }
}

/// Appends a string property when present; fails when the string is too
/// long, after the identifier.
pub(crate) fn put_string_prop(buf: &mut BytesMut, id: u8, v: &Option<String>) -> (r: Result<()>)
    requires
        bytes_mut_contents(*old(buf)).len() + string_prop(id, crate::types::properties::opt_chars(*v)).0.len()
            <= buffer_limit(),
    ensures
        bytes_mut_contents(*final(buf)) == bytes_mut_contents(*old(buf)) + string_prop(
            id,
            crate::types::properties::opt_chars(*v),
        ).0,
        r is Ok <==> string_prop(id, crate::types::properties::opt_chars(*v)).1,
        r is Err ==> r matches Err(Error::InvalidPacket(_)),
{
    match v {
        Some(x) => {
            let ghost b0 = bytes_mut_contents(*buf);
            bm_put_u8(buf, id);
            let r = encode_string(x.as_str(), buf);
            proof {
                match string_field(x@) {
                    Some(f) => {
                        assert(bytes_mut_contents(*buf) =~= b0 + (seq![id] + f));
                    },
                    None => {
                        assert(bytes_mut_contents(*buf) =~= b0 + seq![id]);
                    },
                }
            }
            r
        },
        None => {
            assert(bytes_mut_contents(*buf) =~= bytes_mut_contents(*buf) + Seq::<u8>::empty());
            Ok(())
        },
    }
}

/// Appends a binary property when present; fails above 65535 bytes, after
/// the identifier.
pub(crate) fn put_bytes_prop(buf: &mut BytesMut, id: u8, v: &Option<bytes::Bytes>) -> (r: Result<()>)
    requires
        bytes_mut_contents(*old(buf)).len() + bytes_prop(id, crate::types::properties::opt_bytes(*v)).0.len()
            <= buffer_limit(),
    ensures
        bytes_mut_contents(*final(buf)) == bytes_mut_contents(*old(buf)) + bytes_prop(
            id,
            crate::types::properties::opt_bytes(*v),
        ).0,
        r is Ok <==> bytes_prop(id, crate::types::properties::opt_bytes(*v)).1,
        r is Err ==> r matches Err(Error::InvalidPacket(_)),
{
    match v {
        Some(x) => {
            let ghost b0 = bytes_mut_contents(*buf);
            bm_put_u8(buf, id);
            let r = encode_bytes(crate::buffer::bytes_as_slice(x), buf);
            proof {
                match bytes_field(crate::buffer::bytes_contents(*x)) {
                    Some(f) => {
                        assert(bytes_mut_contents(*buf) =~= b0 + (seq![id] + f));
                    },
                    None => {
                        assert(bytes_mut_contents(*buf) =~= b0 + seq![id]);
                    },
                }
            }
            r
        },
        None => {
            assert(bytes_mut_contents(*buf) =~= bytes_mut_contents(*buf) + Seq::<u8>::empty());
            Ok(())
        },
    }
}

/// Appends every user property, key then value, in entry order; stops at the
/// first string that is too long.
pub(crate) fn put_user_props(buf: &mut BytesMut, props: &StringMap<String>) -> (r: Result<()>)
    requires
        bytes_mut_contents(*old(buf)).len() + user_props_out(user_pairs(*props)).0.len()
            <= buffer_limit(),
    ensures
        bytes_mut_contents(*final(buf)) == bytes_mut_contents(*old(buf)) + user_props_out(
            user_pairs(*props),
        ).0,
        r is Ok <==> user_props_out(user_pairs(*props)).1,
        r is Err ==> r matches Err(Error::InvalidPacket(_)),
{
    let ghost s = user_pairs(*props);
    let ghost b0 = bytes_mut_contents(*buf);
    let n = props.len();
    let mut i: usize = 0;
    proof {
        assert(s.take(0) =~= Seq::<(Seq<char>, Seq<char>)>::empty());
        assert(b0 + Seq::<u8>::empty() =~= b0);
    }
    while i < n
        invariant
            s == user_pairs(*props),
            n == s.len(),
            n == props.view().len(),
            b0 == bytes_mut_contents(*old(buf)),
            b0.len() + user_props_out(s).0.len() <= buffer_limit(),
            i <= n,
            user_props_out(s.take(i as int)).1,
            bytes_mut_contents(*buf) == b0 + user_props_out(s.take(i as int)).0,
        decreases n - i,
    {
        let (k, v) = props.entry_at(i);
        let ghost before = bytes_mut_contents(*buf);
        let ghost e = s[i as int];
        proof {
            lemma_user_props_prefix(s, i + 1);
            assert(s.take(i + 1).drop_last() =~= s.take(i as int));
            assert(s.take(i + 1).last() == e);
            assert(e.0 == k@);
            assert(e.1 == v@);
        }
        bm_put_u8(buf, 0x26);
        let r1 = encode_string(k.as_str(), buf);
        if r1.is_err() {
            proof {
                assert(bytes_mut_contents(*buf) =~= b0 + user_props_out(s.take(i + 1)).0);
                lemma_user_props_prefix(s, i + 1);
            }
            return r1;
        }
        let r2 = encode_string(v.as_str(), buf);
        proof {
            assert(bytes_mut_contents(*buf) =~= b0 + user_props_out(s.take(i + 1)).0);
        }
        if r2.is_err() {
            proof {
                lemma_user_props_prefix(s, i + 1);
            }
            return r2;
        }
        i = i + 1;
    }
    proof {
        assert(s.take(n as int) =~= s);
    }
    Ok(())
}

} // verus!
