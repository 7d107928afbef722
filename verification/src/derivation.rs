//! Deterministic address derivation. The escrow record and the custody
//! account both live at program-derived addresses computed from a namespace
//! tag, the two parties, the asset, the instance id, and a discriminator byte
//! (the bump). The derivation itself is the ledger's: it is called through
//! trusted wrappers and its result is named, never restated.

use vstd::prelude::*;
use vstd::bytes::{spec_u64_to_le_bytes, u64_to_le_bytes};
use crate::identity::{Identity, id_bytes, id_of_bytes, id_to_bytes, id_from_bytes};

verus! {

/// The address that the ledger's program-address derivation yields for the
/// given seed byte strings and program id, or none if the candidate falls on
/// the curve. A pure function of its arguments: the same seeds always derive
/// the same address.
pub uninterp spec fn program_derived_address(seeds: Seq<Seq<u8>>, program_id: Seq<u8>) -> Option<
    Seq<u8>,
>;

/// The address and discriminator that the ledger's exhaustive derivation
/// search yields for the given seed byte strings and program id. A pure
/// function of its arguments.
pub uninterp spec fn found_program_address(seeds: Seq<Seq<u8>>, program_id: Seq<u8>) -> Option<
    (Seq<u8>, u8),
>;

pub open spec fn opt_bytes_view(r: Option<Vec<u8>>) -> Option<Seq<u8>> {
    match r {
        Some(v) => Some(v@),
        None => None,
    }
}

pub open spec fn opt_found_view(r: Option<(Vec<u8>, u8)>) -> Option<(Seq<u8>, u8)> {
    match r {
        Some(p) => Some((p.0@, p.1)),
        None => None,
    }
}

/// Relies on `Pubkey::create_program_address` (solana-pubkey): hashes the
/// seed byte strings with the program id, yields the 32-byte off-curve
/// address or an error, and is a pure function of those inputs alone.
#[verifier::external_body]
fn create_program_address_raw(
    tag: &Vec<u8>,
    from: &Vec<u8>,
    to: &Vec<u8>,
    mint: &Vec<u8>,
    id_le: &Vec<u8>,
    bump: u8,
    program_id: &Vec<u8>,
) -> (r: Option<Vec<u8>>)
    requires
        program_id@.len() == 32,
    ensures
        opt_bytes_view(r) == program_derived_address(
            seq![tag@, from@, to@, mint@, id_le@, seq![bump]],
            program_id@,
        ),
        r matches Some(a) ==> a@.len() == 32,
{
    let pid = match solana_pubkey::Pubkey::try_from(program_id.as_slice()) {
        Ok(p) => p,
        Err(_) => return None,
    };
    let bump_seed = [bump];
    let seeds: [&[u8]; 6] = [tag, from, to, mint, id_le, &bump_seed];
    match solana_pubkey::Pubkey::create_program_address(&seeds, &pid) {
        Ok(a) => Some(a.to_bytes().to_vec()),
        Err(_) => None,
    }
}

/// Relies on `Pubkey::try_find_program_address` (solana-pubkey): searches
/// discriminator bytes from 255 downward and returns the first pair that
/// `create_program_address` accepts, so its result is a pure function of the
/// seed byte strings and the program id, and the returned pair re-derives to
/// the returned address.
#[verifier::external_body]
fn find_program_address_raw(
    tag: &Vec<u8>,
    from: &Vec<u8>,
    to: &Vec<u8>,
    mint: &Vec<u8>,
    id_le: &Vec<u8>,
    program_id: &Vec<u8>,
) -> (r: Option<(Vec<u8>, u8)>)
    requires
        program_id@.len() == 32,
    ensures
        opt_found_view(r) == found_program_address(
            seq![tag@, from@, to@, mint@, id_le@],
            program_id@,
        ),
        r matches Some(p) ==> program_derived_address(
            seq![tag@, from@, to@, mint@, id_le@, seq![p.1]],
            program_id@,
        ) == Some(p.0@),
        r matches Some(p) ==> p.0@.len() == 32,
{
    let pid = match solana_pubkey::Pubkey::try_from(program_id.as_slice()) {
        Ok(p) => p,
        Err(_) => return None,
    };
    let seeds: [&[u8]; 5] = [tag, from, to, mint, id_le];
    match solana_pubkey::Pubkey::try_find_program_address(&seeds, &pid) {
        Some((a, b)) => Some((a.to_bytes().to_vec(), b)),
        None => None,
    }
}

/// The namespace tag of escrow record addresses: the bytes of "escrow_state".
pub open spec fn state_tag() -> Seq<u8> {
    seq![0x65u8, 0x73, 0x63, 0x72, 0x6f, 0x77, 0x5f, 0x73, 0x74, 0x61, 0x74, 0x65]
}

/// The namespace tag of custody account addresses: the bytes of
/// "escrow_wallet".
pub open spec fn wallet_tag() -> Seq<u8> {
    seq![0x65u8, 0x73, 0x63, 0x72, 0x6f, 0x77, 0x5f, 0x77, 0x61, 0x6c, 0x6c, 0x65, 0x74]
}

fn state_tag_bytes() -> (r: Vec<u8>)
    ensures
        r@ == state_tag(),
{
    let mut v: Vec<u8> = Vec::new();
    v.push(0x65);
    v.push(0x73);
    v.push(0x63);
    v.push(0x72);
    v.push(0x6f);
    v.push(0x77);
    v.push(0x5f);
    v.push(0x73);
    v.push(0x74);
    v.push(0x61);
    v.push(0x74);
    v.push(0x65);
    proof {
        assert(v@ =~= state_tag());
    }
    v
}

fn wallet_tag_bytes() -> (r: Vec<u8>)
    ensures
        r@ == wallet_tag(),
{
    let mut v: Vec<u8> = Vec::new();
    v.push(0x65);
    v.push(0x73);
    v.push(0x63);
    v.push(0x72);
    v.push(0x6f);
    v.push(0x77);
    v.push(0x5f);
    v.push(0x77);
    v.push(0x61);
    v.push(0x6c);
    v.push(0x6c);
    v.push(0x65);
    v.push(0x74);
    proof {
        assert(v@ =~= wallet_tag());
    }
    v
}

/// The seed byte strings of an escrow address under the given namespace tag,
/// before the discriminator: the tag, the two parties, the asset, and the
/// instance id in little-endian bytes.
pub open spec fn escrow_seeds(
    tag: Seq<u8>,
    from: Identity,
    to: Identity,
    mint: Identity,
    escrow_id: u64,
) -> Seq<Seq<u8>> {
    seq![tag, id_bytes(from), id_bytes(to), id_bytes(mint), spec_u64_to_le_bytes(escrow_id)]
}

/// The same seed byte strings with the discriminator appended.
pub open spec fn escrow_seeds_with_bump(
    tag: Seq<u8>,
    from: Identity,
    to: Identity,
    mint: Identity,
    escrow_id: u64,
    bump: u8,
) -> Seq<Seq<u8>> {
    seq![
        tag,
        id_bytes(from),
        id_bytes(to),
        id_bytes(mint),
        spec_u64_to_le_bytes(escrow_id),
        seq![bump],
    ]
}

/// The escrow record's address for the given parties, asset, instance id and
/// discriminator, if that discriminator is viable.
pub open spec fn spec_state_address(
    from: Identity,
    to: Identity,
    mint: Identity,
    escrow_id: u64,
    bump: u8,
    program_id: Identity,
) -> Option<Identity> {
    match program_derived_address(
        escrow_seeds_with_bump(state_tag(), from, to, mint, escrow_id, bump),
        id_bytes(program_id),
    ) {
        Some(b) => Some(id_of_bytes(b)),
        None => None,
    }
}

/// The custody account's address for the given parties, asset, instance id
/// and discriminator, if that discriminator is viable.
pub open spec fn spec_wallet_address(
    from: Identity,
    to: Identity,
    mint: Identity,
    escrow_id: u64,
    bump: u8,
    program_id: Identity,
) -> Option<Identity> {
    match program_derived_address(
        escrow_seeds_with_bump(wallet_tag(), from, to, mint, escrow_id, bump),
        id_bytes(program_id),
    ) {
        Some(b) => Some(id_of_bytes(b)),
        None => None,
    }
}

/// Derive the escrow record's address for a caller-supplied discriminator.
pub fn derive_state_address(
    from: &Identity,
    to: &Identity,
    mint: &Identity,
    escrow_id: u64,
    state_bump: u8,
    program_id: &Identity,
) -> (r: Option<Identity>)
    ensures
        r == spec_state_address(*from, *to, *mint, escrow_id, state_bump, *program_id),
{
    let tag = state_tag_bytes();
    let fb = id_to_bytes(from);
    let tb = id_to_bytes(to);
    let mb = id_to_bytes(mint);
    let idb = u64_to_le_bytes(escrow_id);
    let pb = id_to_bytes(program_id);
    match create_program_address_raw(&tag, &fb, &tb, &mb, &idb, state_bump, &pb) {
        Some(b) => Some(id_from_bytes(&b)),
        None => None,
    }
}

/// Derive the custody account's address for a caller-supplied discriminator.
pub fn derive_wallet_address(
    from: &Identity,
    to: &Identity,
    mint: &Identity,
    escrow_id: u64,
    wallet_bump: u8,
    program_id: &Identity,
) -> (r: Option<Identity>)
    ensures
        r == spec_wallet_address(*from, *to, *mint, escrow_id, wallet_bump, *program_id),
{
    let tag = wallet_tag_bytes();
    let fb = id_to_bytes(from);
    let tb = id_to_bytes(to);
    let mb = id_to_bytes(mint);
    let idb = u64_to_le_bytes(escrow_id);
    let pb = id_to_bytes(program_id);
    match create_program_address_raw(&tag, &fb, &tb, &mb, &idb, wallet_bump, &pb) {
        Some(b) => Some(id_from_bytes(&b)),
        None => None,
    }
}

/// The escrow record address and discriminator that the exhaustive search
/// yields, at the identity level.
pub open spec fn spec_find_state_address(
    from: Identity,
    to: Identity,
    mint: Identity,
    escrow_id: u64,
    program_id: Identity,
) -> Option<(Identity, u8)> {
    match found_program_address(
        escrow_seeds(state_tag(), from, to, mint, escrow_id),
        id_bytes(program_id),
    ) {
        Some(p) => Some((id_of_bytes(p.0), p.1)),
        None => None,
    }
}

/// The custody account address and discriminator that the exhaustive search
/// yields, at the identity level.
pub open spec fn spec_find_wallet_address(
    from: Identity,
    to: Identity,
    mint: Identity,
    escrow_id: u64,
    program_id: Identity,
) -> Option<(Identity, u8)> {
    match found_program_address(
        escrow_seeds(wallet_tag(), from, to, mint, escrow_id),
        id_bytes(program_id),
    ) {
        Some(p) => Some((id_of_bytes(p.0), p.1)),
        None => None,
    }
}

/// Search for the escrow record's address and its discriminator. A found pair
/// re-derives to the same address through `derive_state_address`.
pub fn find_state_address(
    from: &Identity,
    to: &Identity,
    mint: &Identity,
    escrow_id: u64,
    program_id: &Identity,
) -> (r: Option<(Identity, u8)>)
    ensures
        r == spec_find_state_address(*from, *to, *mint, escrow_id, *program_id),
        r matches Some(p) ==> spec_state_address(
            *from,
            *to,
            *mint,
            escrow_id,
            p.1,
            *program_id,
        ) == Some(p.0),
{
    let tag = state_tag_bytes();
    let fb = id_to_bytes(from);
    let tb = id_to_bytes(to);
    let mb = id_to_bytes(mint);
    let idb = u64_to_le_bytes(escrow_id);
    let pb = id_to_bytes(program_id);
    match find_program_address_raw(&tag, &fb, &tb, &mb, &idb, &pb) {
        Some((b, bump)) => Some((id_from_bytes(&b), bump)),
        None => None,
    }
}

/// Search for the custody account's address and its discriminator. A found
/// pair re-derives to the same address through `derive_wallet_address`.
pub fn find_wallet_address(
    from: &Identity,
    to: &Identity,
    mint: &Identity,
    escrow_id: u64,
    program_id: &Identity,
) -> (r: Option<(Identity, u8)>)
    ensures
        r == spec_find_wallet_address(*from, *to, *mint, escrow_id, *program_id),
        r matches Some(p) ==> spec_wallet_address(
            *from,
            *to,
            *mint,
            escrow_id,
            p.1,
            *program_id,
        ) == Some(p.0),
{
    let tag = wallet_tag_bytes();
    let fb = id_to_bytes(from);
    let tb = id_to_bytes(to);
    let mb = id_to_bytes(mint);
    let idb = u64_to_le_bytes(escrow_id);
    let pb = id_to_bytes(program_id);
    match find_program_address_raw(&tag, &fb, &tb, &mb, &idb, &pb) {
        Some((b, bump)) => Some((id_from_bytes(&b), bump)),
        None => None,
    }
}

/// Address derivation is deterministic: equal parties, asset, instance id,
/// discriminator and program id always derive equal record and custody
/// addresses, and the exhaustive search always finds equal pairs.
pub proof fn lemma_derivation_deterministic(
    from1: Identity,
    to1: Identity,
    mint1: Identity,
    escrow_id1: u64,
    bump1: u8,
    program_id1: Identity,
    from2: Identity,
    to2: Identity,
    mint2: Identity,
    escrow_id2: u64,
    bump2: u8,
    program_id2: Identity,
)
    requires
        from1 == from2,
        to1 == to2,
        mint1 == mint2,
        escrow_id1 == escrow_id2,
        bump1 == bump2,
        program_id1 == program_id2,
    ensures
        spec_state_address(from1, to1, mint1, escrow_id1, bump1, program_id1)
            == spec_state_address(from2, to2, mint2, escrow_id2, bump2, program_id2),
        spec_wallet_address(from1, to1, mint1, escrow_id1, bump1, program_id1)
            == spec_wallet_address(from2, to2, mint2, escrow_id2, bump2, program_id2),
        spec_find_state_address(from1, to1, mint1, escrow_id1, program_id1)
            == spec_find_state_address(from2, to2, mint2, escrow_id2, program_id2),
        spec_find_wallet_address(from1, to1, mint1, escrow_id1, program_id1)
            == spec_find_wallet_address(from2, to2, mint2, escrow_id2, program_id2),
{
}

} // verus!
