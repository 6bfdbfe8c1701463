use anchor_lang::prelude::Pubkey;
use vstd::prelude::*;

verus! {

/// The program-derived address and bump seed that the runtime finds for `seeds`
/// under `program_id`, or `None` where no bump seed gives one.
pub uninterp spec fn program_address_of(seeds: Seq<Seq<u8>>, program_id: Seq<u8>) -> Option<(Seq<u8>, u8)>;

/// Relies on Pubkey::try_find_program_address: it hashes the seeds, a bump seed and
/// the program id, so its result depends on those alone.
#[verifier::external_body]
fn try_find_program_address(tag: &[u8], owner: &[u8; 32], program_id: &[u8; 32]) -> (r: Option<([u8; 32], u8)>)
    ensures
        r matches Some(found) ==> program_address_of(seq![tag@, owner@], program_id@) == Some((found.0@, found.1)),
        r is None ==> program_address_of(seq![tag@, owner@], program_id@) is None,
{
    Pubkey::try_find_program_address(&[tag, owner.as_ref()], &Pubkey::new_from_array(*program_id))
        .map(|(key, bump)| (key.to_bytes(), bump))
}

/// The domain tag, "agent" in ASCII, that namespaces registry records.
pub open spec fn agent_seed_spec() -> Seq<u8> {
    seq![97u8, 103u8, 101u8, 110u8, 116u8]
}

/// The registry program's id: 32 zero bytes (base58 "111...1").
pub open spec fn program_id_spec() -> Seq<u8> {
    Seq::new(32, |i: int| 0u8)
}

/// The domain tag "agent".
pub fn agent_seed() -> (r: [u8; 5])
    ensures
        r@ == agent_seed_spec(),
{
    let r: [u8; 5] = [97u8, 103u8, 101u8, 110u8, 116u8];
    assert(r@ =~= agent_seed_spec());
    r
}

/// The registry program's id.
pub fn program_id() -> (r: [u8; 32])
    ensures
        r@ == program_id_spec(),
{
    let r: [u8; 32] = [0u8; 32];
    assert(r@ =~= program_id_spec());
    r
}

/// Where the record of `owner` lives: the program address derived from the tag
/// and the owner's key, if there is one.
pub open spec fn record_address(owner: Seq<u8>) -> Option<Seq<u8>> {
    match program_address_of(seq![agent_seed_spec(), owner], program_id_spec()) {
        Some(found) => Some(found.0),
        None => None,
    }
}

/// Derives the address of `owner`'s record. Anyone who knows the key can
/// recompute it; no index is kept.
pub fn agent_address(owner: &[u8; 32]) -> (r: Option<[u8; 32]>)
    ensures
        r matches Some(a) ==> record_address(owner@) == Some(a@),
        r is None ==> record_address(owner@) is None,
{
    let tag = agent_seed();
    let id = program_id();
    match try_find_program_address(&tag, owner, &id) {
        Some(found) => Some(found.0),
        None => None,
    }
}

} // verus!
