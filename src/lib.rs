//! Verified core of a small minting platform: template records, one NFT
//! collection, and the calls into the core NFT program that mint a
//! collection and assets into it.
use vstd::prelude::*;
use vstd::utf8::encode_utf8;

pub mod constraints;
pub mod cpi;
pub mod create_template;
pub mod key;
pub mod mint_asset;
pub mod mint_collection;
pub mod pda;
pub mod states;

pub use constraints::ErrorCode;
pub use cpi::{AccountMeta, Instruction, SignedInstruction};
pub use create_template::CreateTemplate;
pub use key::Key;
pub use mint_asset::MintAsset;
pub use mint_collection::MintCollection;
pub use states::{Collection, Template};

use constraints::{check_address, check_seeds};
use cpi::{core_program_id, fits_u32};
use create_template::{create_template_outcome, filled};
use mint_asset::{is_asset_call, mint_checks};
use mint_collection::{collection_checks, is_collection_call, recorded};
use pda::{admin_address, collection_address, template_address, MAX_SEED_LEN};
use states::template_fits;

verus! {

/// Creates a template: checks that the template account sits at the address
/// derived from the name and the signing user, fills it with the name, uri
/// and price, records the user as creator, and checks that the record fits
/// in its account. On an error the accounts are left as they were.
pub fn create_template(
    program_id: &Key,
    accounts: &mut CreateTemplate,
    name: String,
    uri: String,
    price: u64,
) -> (r: Result<(), ErrorCode>)
    ensures
        r == create_template_outcome(program_id.bytes@, *old(accounts), name@, uri@),
        r is Ok ==> filled(*old(accounts), *final(accounts), name@, uri@, price),
        r is Err ==> *final(accounts) == *old(accounts),
        encode_utf8(name@).len() > MAX_SEED_LEN ==> r == Err::<(), ErrorCode>(ErrorCode::InvalidSeeds),
{
    let derived = template_address(program_id, name.as_str(), &accounts.user);
    if let Err(e) = check_seeds(derived, &accounts.template_key) {
        return Err(e);
    }
    if !template_fits(name.as_str(), uri.as_str()) {
        return Err(ErrorCode::AccountDidNotSerialize);
    }
    accounts.create_template(name, uri, price)
}

/// Creates the program's collection: checks the collection record's and the
/// authority's derived addresses and the core NFT program's address, records
/// the new collection's address, and gives the signed call into the core NFT
/// program that creates it. On an error the accounts are left as they were.
pub fn initialize_collection(
    program_id: &Key,
    accounts: &mut MintCollection,
    name: String,
    uri: String,
) -> (r: Result<SignedInstruction, ErrorCode>)
    requires
        fits_u32(name@),
        fits_u32(uri@),
    ensures
        match collection_checks(program_id.bytes@, *old(accounts)) {
            Err(e) => r == Err::<SignedInstruction, ErrorCode>(e) && *final(accounts) == *old(
                accounts,
            ),
            Ok(bump) => {
                &&& r matches Ok(call) && is_collection_call(call, *old(accounts), name@, uri@, bump)
                &&& *final(accounts) == recorded(*old(accounts))
            },
        },
{
    let checked = check_seeds(collection_address(program_id), &accounts.collection_account_key);
    if let Err(e) = checked {
        return Err(e);
    }
    let admin_bump = match check_seeds(admin_address(program_id), &accounts.admin) {
        Err(e) => {
            return Err(e);
        },
        Ok(bump) => bump,
    };
    if let Err(e) = check_address(&core_program_id(), &accounts.mpl_core_program) {
        return Err(e);
    }
    Ok(accounts.initialize_collection(name, uri, admin_bump))
}

/// Mints one asset: checks the authority's derived address and the core NFT
/// program's address, and gives the signed call into the core NFT program
/// that creates the asset from the template.
pub fn initialize_mint(program_id: &Key, accounts: &MintAsset) -> (r: Result<
    SignedInstruction,
    ErrorCode,
>)
    requires
        fits_u32(accounts.template.name@),
        fits_u32(accounts.template.uri@),
    ensures
        match mint_checks(program_id.bytes@, *accounts) {
            Err(e) => r == Err::<SignedInstruction, ErrorCode>(e),
            Ok(bump) => r matches Ok(call) && is_asset_call(call, *accounts, bump),
        },
{
    let admin_bump = match check_seeds(admin_address(program_id), &accounts.admin) {
        Err(e) => {
            return Err(e);
        },
        Ok(bump) => bump,
    };
    if let Err(e) = check_address(&core_program_id(), &accounts.mpl_core_program) {
        return Err(e);
    }
    Ok(accounts.initialize_mint(admin_bump))
}

} // verus!
