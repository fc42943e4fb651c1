use anchor_lang::prelude::Pubkey;
use vstd::prelude::*;
use vstd::slice::slice_to_vec;
use vstd::utf8::encode_utf8;

use crate::key::Key;

verus! {

/// Most seeds a program address can be derived from, the bump seed included.
pub const MAX_SEEDS: usize = 16;

/// Longest seed, in bytes.
pub const MAX_SEED_LEN: usize = 32;

/// The address, and its bump seed, that the runtime derives from `seeds` for
/// the program `program_id`; `None` when no bump seed gives an address off the
/// curve.
pub uninterp spec fn program_address_of(seeds: Seq<Seq<u8>>, program_id: Seq<u8>) -> Option<(Seq<u8>, u8)>;

/// Whether the seeds break the runtime's limits on their number or length, so
/// that no address can be derived from them.
pub open spec fn exceeds_seed_limits(seeds: Seq<Seq<u8>>) -> bool {
    ||| seeds.len() >= MAX_SEEDS
    ||| exists|i: int| 0 <= i < seeds.len() && #[trigger] seeds[i].len() > MAX_SEED_LEN
}

/// The byte strings held by a list of seeds.
pub open spec fn seeds_view(seeds: Seq<Vec<u8>>) -> Seq<Seq<u8>> {
    seeds.map_values(|s: Vec<u8>| s@)
}

/// A derived address in the shape the executable functions return it.
pub open spec fn address_view(r: Option<(Key, u8)>) -> Option<(Seq<u8>, u8)> {
    match r {
        Some((k, bump)) => Some((k.bytes@, bump)),
        None => None,
    }
}

/// Relies on `Pubkey::try_find_program_address`: it searches the bump seeds
/// from 255 down and returns the first address off the curve, computed from
/// the seeds and program id alone, and gives up at once on more than 15 seeds
/// or on a seed longer than 32 bytes.
#[verifier::external_body]
fn try_find_program_address(seeds: &Vec<Vec<u8>>, program_id: &Key) -> (r: Option<(Key, u8)>)
    ensures
        address_view(r) == program_address_of(seeds_view(seeds@), program_id.bytes@),
        exceeds_seed_limits(seeds_view(seeds@)) ==> r is None,
{
    let parts: Vec<&[u8]> = seeds.iter().map(|s| s.as_slice()).collect();
    let id = Pubkey::new_from_array(program_id.bytes);
    Pubkey::try_find_program_address(&parts, &id).map(|(k, bump)| (Key { bytes: k.to_bytes() }, bump))
}

/// Seed that tags a template record: the bytes of "template".
pub open spec fn template_tag() -> Seq<u8> {
    seq![116u8, 101, 109, 112, 108, 97, 116, 101]
}

/// Seed of the collection record: the bytes of "collection".
pub open spec fn collection_tag() -> Seq<u8> {
    seq![99u8, 111, 108, 108, 101, 99, 116, 105, 111, 110]
}

/// Seed of the program's own signing authority: the bytes of "admin".
pub open spec fn admin_tag() -> Seq<u8> {
    seq![97u8, 100, 109, 105, 110]
}

/// Seeds of the template that `user` creates under `name`.
pub open spec fn template_seeds(name: Seq<char>, user: Seq<u8>) -> Seq<Seq<u8>> {
    seq![template_tag(), encode_utf8(name), user]
}

/// Seeds of the collection record: one per program.
pub open spec fn collection_seeds() -> Seq<Seq<u8>> {
    seq![collection_tag()]
}

/// Seeds of the program's signing authority.
pub open spec fn admin_seeds() -> Seq<Seq<u8>> {
    seq![admin_tag()]
}

/// Signer seeds with which the program signs as its authority: the tag and
/// the bump seed.
pub open spec fn admin_signer_seeds(bump: u8) -> Seq<Seq<u8>> {
    seq![admin_tag(), seq![bump]]
}

fn template_tag_bytes() -> (r: Vec<u8>)
    ensures
        r@ == template_tag(),
{
    let r = vec![116u8, 101, 109, 112, 108, 97, 116, 101];
    assert(r@ =~= template_tag());
    r
}

fn collection_tag_bytes() -> (r: Vec<u8>)
    ensures
        r@ == collection_tag(),
{
    let r = vec![99u8, 111, 108, 108, 101, 99, 116, 105, 111, 110];
    assert(r@ =~= collection_tag());
    r
}

fn admin_tag_bytes() -> (r: Vec<u8>)
    ensures
        r@ == admin_tag(),
{
    let r = vec![97u8, 100, 109, 105, 110];
    assert(r@ =~= admin_tag());
    r
}

/// Address and bump seed of the template that `user` creates under `name`.
/// Names longer than 32 bytes give no address.
pub fn template_address(program_id: &Key, name: &str, user: &Key) -> (r: Option<(Key, u8)>)
    ensures
        address_view(r) == program_address_of(template_seeds(name@, user.bytes@), program_id.bytes@),
        encode_utf8(name@).len() > MAX_SEED_LEN ==> r is None,
{
    let seeds = vec![template_tag_bytes(), slice_to_vec(name.as_bytes()), slice_to_vec(user.bytes.as_slice())];
    assert(seeds_view(seeds@) =~= template_seeds(name@, user.bytes@));
    let r = try_find_program_address(&seeds, program_id);
    proof {
        if encode_utf8(name@).len() > MAX_SEED_LEN {
            assert(seeds_view(seeds@)[1].len() > MAX_SEED_LEN);
        }
    }
    r
}

/// Address and bump seed of the collection record.
pub fn collection_address(program_id: &Key) -> (r: Option<(Key, u8)>)
    ensures
        address_view(r) == program_address_of(collection_seeds(), program_id.bytes@),
{
    let seeds = vec![collection_tag_bytes()];
    assert(seeds_view(seeds@) =~= collection_seeds());
    try_find_program_address(&seeds, program_id)
}

/// Address and bump seed of the program's signing authority.
pub fn admin_address(program_id: &Key) -> (r: Option<(Key, u8)>)
    ensures
        address_view(r) == program_address_of(admin_seeds(), program_id.bytes@),
{
    let seeds = vec![admin_tag_bytes()];
    assert(seeds_view(seeds@) =~= admin_seeds());
    try_find_program_address(&seeds, program_id)
}

/// The signer seeds for the program's authority with bump seed `bump`.
pub fn admin_signer(bump: u8) -> (r: Vec<Vec<u8>>)
    ensures
        seeds_view(r@) == admin_signer_seeds(bump),
{
    let bump_seed = vec![bump];
    assert(bump_seed@ =~= seq![bump]);
    let r = vec![admin_tag_bytes(), bump_seed];
    assert(seeds_view(r@) =~= admin_signer_seeds(bump));
    r
}

} // verus!
