use mpl_core::instructions::{CreateCollectionV1Builder, CreateV1Builder};
use mpl_core::types::DataState;
use vstd::prelude::*;
use vstd::utf8::encode_utf8;

use crate::key::Key;

verus! {

/// One account that an instruction touches, and how.
#[derive(Clone, Copy, Debug)]
pub struct AccountMeta {
    pub pubkey: Key,
    pub is_signer: bool,
    pub is_writable: bool,
}

/// A call into another program: its id, the accounts in the order it expects
/// them, and the argument bytes.
#[derive(Clone, Debug)]
pub struct Instruction {
    pub program_id: Key,
    pub accounts: Vec<AccountMeta>,
    pub data: Vec<u8>,
}

/// An instruction to invoke with the program's own signature: `signer_seeds`
/// are the seeds, bump included, of the program-derived address that signs.
#[derive(Clone, Debug)]
pub struct SignedInstruction {
    pub instruction: Instruction,
    pub signer_seeds: Vec<Vec<u8>>,
}

/// The metadata of account `pubkey`.
pub open spec fn meta(pubkey: Key, is_signer: bool, is_writable: bool) -> AccountMeta {
    AccountMeta { pubkey, is_signer, is_writable }
}

impl AccountMeta {
    /// The metadata of the account at `bytes`.
    pub fn of(bytes: [u8; 32], is_signer: bool, is_writable: bool) -> (r: AccountMeta)
        ensures
            r.pubkey.bytes@ == bytes@,
            r.is_signer == is_signer,
            r.is_writable == is_writable,
    {
        AccountMeta { pubkey: Key { bytes }, is_signer, is_writable }
    }
}

/// Address of the core NFT program, written in base58 as
/// "CoREENxT6tW1HoK8ypY1SxRMZTcVPm7R94rH4PZNhX7d".
pub open spec fn core_program_bytes() -> Seq<u8> {
    seq![
        175u8, 84, 171, 16, 189, 151, 165, 66, 160, 158, 247, 179, 152, 137, 221, 12,
        211, 148, 164, 204, 233, 223, 166, 205, 201, 126, 190, 45, 35, 91, 167, 72,
    ]
}

/// `n` as four little-endian bytes.
pub open spec fn u32_le(n: nat) -> Seq<u8> {
    seq![
        (n % 256) as u8,
        ((n / 256) % 256) as u8,
        ((n / 65536) % 256) as u8,
        ((n / 16777216) % 256) as u8,
    ]
}

/// Whether the UTF-8 encoding of `s` is short enough to carry a 32-bit
/// length prefix.
pub open spec fn fits_u32(s: Seq<char>) -> bool {
    encode_utf8(s).len() <= u32::MAX
}

/// Borsh encoding of a string: its byte length as a little-endian `u32`, then
/// its UTF-8 bytes.
pub open spec fn borsh_string(s: Seq<char>) -> Seq<u8> {
    u32_le(encode_utf8(s).len()) + encode_utf8(s)
}

/// Argument bytes of the core program's collection creation: its
/// discriminator 1, the name, the uri, and no plugins.
pub open spec fn create_collection_data(name: Seq<char>, uri: Seq<char>) -> Seq<u8> {
    seq![1u8] + borsh_string(name) + borsh_string(uri) + seq![0u8]
}

/// Argument bytes of the core program's asset creation: its discriminator 0,
/// the data kept in the account (variant 0), the name, the uri, and no
/// plugins.
pub open spec fn create_asset_data(name: Seq<char>, uri: Seq<char>) -> Seq<u8> {
    seq![0u8, 0u8] + borsh_string(name) + borsh_string(uri) + seq![0u8]
}

/// Relies on `mpl_core::ID`: the address of the core NFT program.
#[verifier::external_body]
pub(crate) fn core_program_id() -> (r: Key)
    ensures
        r.bytes@ == core_program_bytes(),
{
    Key { bytes: mpl_core::ID.to_bytes() }
}

/// Relies on `CreateCollectionV1Builder::instruction` of mpl_core: the core
/// program's id, the collection (writable signer), its update authority
/// (read only), the payer (writable signer) and the system program (read
/// only), then the discriminator and the Borsh-encoded arguments. Encoding
/// panics on a string whose length does not fit in a `u32`.
#[verifier::external_body]
pub(crate) fn create_collection_v1(
    collection: &Key,
    update_authority: &Key,
    payer: &Key,
    system_program: &Key,
    name: &String,
    uri: &String,
) -> (r: Instruction)
    requires
        fits_u32(name@),
        fits_u32(uri@),
    ensures
        r.program_id.bytes@ == core_program_bytes(),
        r.accounts@ == seq![
            meta(*collection, true, true),
            meta(*update_authority, false, false),
            meta(*payer, true, true),
            meta(*system_program, false, false),
        ],
        r.data@ == create_collection_data(name@, uri@),
{
    let ix = CreateCollectionV1Builder::new().collection(collection.bytes.into()).update_authority(
        Some(update_authority.bytes.into()),
    ).payer(payer.bytes.into()).system_program(system_program.bytes.into()).name(
        name.clone(),
    ).uri(uri.clone()).instruction();
    let accounts = ix.accounts.iter().map(
        |m| AccountMeta::of(m.pubkey.to_bytes(), m.is_signer, m.is_writable),
    ).collect();
    Instruction { program_id: Key { bytes: ix.program_id.to_bytes() }, accounts, data: ix.data }
}

/// Relies on `CreateV1Builder::instruction` of mpl_core: the core program's
/// id; the asset (writable signer), the collection (writable), the authority
/// (read-only signer), the payer (writable signer), the owner (read only), the
/// core program's id in place of the update authority left out, the system
/// program, the core program's id in place of the log wrapper left out (all
/// read only); then the discriminator and the Borsh-encoded arguments. Encoding
/// panics on a string whose length does not fit in a `u32`.
#[verifier::external_body]
pub(crate) fn create_v1(
    asset: &Key,
    collection: &Key,
    authority: &Key,
    payer: &Key,
    owner: &Key,
    system_program: &Key,
    name: &String,
    uri: &String,
) -> (r: Instruction)
    requires
        fits_u32(name@),
        fits_u32(uri@),
    ensures
        r.program_id.bytes@ == core_program_bytes(),
        r.accounts@ == seq![
            meta(*asset, true, true),
            meta(*collection, false, true),
            meta(*authority, true, false),
            meta(*payer, true, true),
            meta(*owner, false, false),
            meta(r.program_id, false, false),
            meta(*system_program, false, false),
            meta(r.program_id, false, false),
        ],
        r.data@ == create_asset_data(name@, uri@),
{
    let ix = CreateV1Builder::new().asset(asset.bytes.into()).collection(
        Some(collection.bytes.into()),
    ).authority(Some(authority.bytes.into())).payer(payer.bytes.into()).owner(
        Some(owner.bytes.into()),
    ).system_program(system_program.bytes.into()).data_state(DataState::AccountState).name(
        name.clone(),
    ).uri(uri.clone()).instruction();
    let accounts = ix.accounts.iter().map(
        |m| AccountMeta::of(m.pubkey.to_bytes(), m.is_signer, m.is_writable),
    ).collect();
    Instruction { program_id: Key { bytes: ix.program_id.to_bytes() }, accounts, data: ix.data }
}

} // verus!
