//! Caller-nonced AEAD nonce construction: a server-issued 4-byte id is
//! expanded to the 96-bit nonce the cipher needs by repeating its
//! big-endian bytes three times.

use vstd::prelude::*;

verus! {

/// The big-endian bytes of a 32-bit value.
pub open spec fn be_bytes_of_u32(x: u32) -> Seq<u8> {
    seq![
        (x >> 24) as u8,
        (x >> 16) as u8,
        (x >> 8) as u8,
        x as u8,
    ]
}

/// A 4-byte id expanded to a 12-byte nonce: its big-endian bytes, three times.
pub open spec fn expanded_nonce_of(x: u32) -> Seq<u8> {
    be_bytes_of_u32(x) + be_bytes_of_u32(x) + be_bytes_of_u32(x)
}

/// Two distinct 32-bit values have distinct big-endian byte strings.
pub proof fn lemma_be_bytes_injective(a: u32, b: u32)
    ensures
        be_bytes_of_u32(a) == be_bytes_of_u32(b) ==> a == b,
{
    if be_bytes_of_u32(a) == be_bytes_of_u32(b) {
        assert(be_bytes_of_u32(a)[0] == be_bytes_of_u32(b)[0]);
        assert(be_bytes_of_u32(a)[1] == be_bytes_of_u32(b)[1]);
        assert(be_bytes_of_u32(a)[2] == be_bytes_of_u32(b)[2]);
        assert(be_bytes_of_u32(a)[3] == be_bytes_of_u32(b)[3]);
        assert((a >> 24) as u8 == (b >> 24) as u8 && (a >> 16) as u8 == (b >> 16) as u8
            && (a >> 8) as u8 == (b >> 8) as u8 && a as u8 == b as u8 ==> a == b)
            by (bit_vector);
    }
}

/// Distinct 4-byte ids expand to distinct nonces, so two caller-nonced
/// encryptions under one key never share a nonce unless they share the id.
pub proof fn lemma_expanded_nonce_injective(a: u32, b: u32)
    ensures
        expanded_nonce_of(a) == expanded_nonce_of(b) ==> a == b,
{
    if expanded_nonce_of(a) == expanded_nonce_of(b) {
        assert(be_bytes_of_u32(a) =~= expanded_nonce_of(a).subrange(0, 4));
        assert(be_bytes_of_u32(b) =~= expanded_nonce_of(b).subrange(0, 4));
        lemma_be_bytes_injective(a, b);
    }
}

/// The big-endian bytes of a 32-bit value, as a vector.
pub fn u32_to_be_vec(x: u32) -> (r: Vec<u8>)
    ensures
        r@ == be_bytes_of_u32(x),
{
    let mut r: Vec<u8> = Vec::new();
    r.push((x >> 24) as u8);
    r.push((x >> 16) as u8);
    r.push((x >> 8) as u8);
    r.push(x as u8);
    proof {
        assert(r@ =~= be_bytes_of_u32(x));
    }
    r
}

/// Expand a server-issued 4-byte id into the 12-byte AEAD nonce.
pub fn expand_u32_nonce(u32_nonce: &u32) -> (r: Vec<u8>)
    ensures
        r@ == expanded_nonce_of(*u32_nonce),
        r@.len() == 12,
{
    let mut r = u32_to_be_vec(*u32_nonce);
    let mut second = u32_to_be_vec(*u32_nonce);
    let mut third = u32_to_be_vec(*u32_nonce);
    r.append(&mut second);
    r.append(&mut third);
    proof {
        assert(r@ =~= expanded_nonce_of(*u32_nonce));
    }
    r
}

} // verus!
