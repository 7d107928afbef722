//! Ledger identities: 32-byte addresses and asset ids, held as four 64-bit
//! little-endian words, with their byte-level encoding.

use vstd::prelude::*;
use vstd::bytes::{
    spec_u64_to_le_bytes, spec_u64_from_le_bytes, u64_to_le_bytes, u64_from_le_bytes,
    lemma_auto_spec_u64_to_from_le_bytes,
};
use vstd::slice::slice_subrange;

verus! {

/// A 32-byte ledger identity (an account address, a party, or an asset id),
/// held as four 64-bit words in little-endian order.
#[derive(Clone, Copy, PartialEq, Eq, Structural, Debug)]
pub struct Identity {
    pub w0: u64,
    pub w1: u64,
    pub w2: u64,
    pub w3: u64,
}

/// The 32-byte encoding of an identity: the little-endian bytes of its four
/// words, lowest word first.
pub open spec fn id_bytes(i: Identity) -> Seq<u8> {
    spec_u64_to_le_bytes(i.w0) + spec_u64_to_le_bytes(i.w1) + spec_u64_to_le_bytes(i.w2)
        + spec_u64_to_le_bytes(i.w3)
}

pub proof fn lemma_id_bytes_len(i: Identity)
    ensures
        id_bytes(i).len() == 32,
{
    lemma_auto_spec_u64_to_from_le_bytes();
}

/// Encode an identity as its 32 bytes.
pub fn id_to_bytes(i: &Identity) -> (r: Vec<u8>)
    ensures
        r@ == id_bytes(*i),
        r@.len() == 32,
{
    proof {
        lemma_id_bytes_len(*i);
    }
    let mut r = u64_to_le_bytes(i.w0);
    let mut b1 = u64_to_le_bytes(i.w1);
    let mut b2 = u64_to_le_bytes(i.w2);
    let mut b3 = u64_to_le_bytes(i.w3);
    r.append(&mut b1);
    r.append(&mut b2);
    r.append(&mut b3);
    r
}

/// The identity whose 32-byte encoding is `s`.
pub open spec fn id_of_bytes(s: Seq<u8>) -> Identity {
    Identity {
        w0: spec_u64_from_le_bytes(s.subrange(0, 8)),
        w1: spec_u64_from_le_bytes(s.subrange(8, 16)),
        w2: spec_u64_from_le_bytes(s.subrange(16, 24)),
        w3: spec_u64_from_le_bytes(s.subrange(24, 32)),
    }
}

/// Decode an identity from its 32 bytes.
pub fn id_from_bytes(v: &Vec<u8>) -> (r: Identity)
    requires
        v@.len() == 32,
    ensures
        r == id_of_bytes(v@),
{
    let s = v.as_slice();
    let w0 = u64_from_le_bytes(slice_subrange(s, 0, 8));
    let w1 = u64_from_le_bytes(slice_subrange(s, 8, 16));
    let w2 = u64_from_le_bytes(slice_subrange(s, 16, 24));
    let w3 = u64_from_le_bytes(slice_subrange(s, 24, 32));
    Identity { w0, w1, w2, w3 }
}

} // verus!
