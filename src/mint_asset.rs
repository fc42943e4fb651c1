use vstd::prelude::*;

use crate::cpi::{core_program_bytes, create_asset_data, create_v1, fits_u32, meta, SignedInstruction};
use crate::constraints::{address_check, seeds_check, ErrorCode};
use crate::key::Key;
use crate::pda::{admin_seeds, admin_signer, admin_signer_seeds, program_address_of, seeds_view};
use crate::states::Template;

verus! {

/// Accounts of minting one asset: the user who pays and will own it, the
/// recipient, the new asset (which signs), the template it is made from, the
/// collection it joins, the program's signing authority, the system program
/// and the core NFT program.
#[derive(Clone, Debug)]
pub struct MintAsset {
    pub user: Key,
    pub recipient: Key,
    pub mint: Key,
    pub template: Template,
    pub metaplex_collection: Key,
    pub admin: Key,
    pub system_program: Key,
    pub mpl_core_program: Key,
}

/// Whether `call` asks the core NFT program to create the asset of `a` in its
/// collection, named and described as its template, owned by the user, with
/// the program's authority (bump seed `bump`) signing.
pub open spec fn is_asset_call(call: SignedInstruction, a: MintAsset, bump: u8) -> bool {
    &&& call.instruction.program_id.bytes@ == core_program_bytes()
    &&& call.instruction.accounts@ == seq![
        meta(a.mint, true, true),
        meta(a.metaplex_collection, false, true),
        meta(a.admin, true, false),
        meta(a.user, true, true),
        meta(a.user, false, false),
        meta(call.instruction.program_id, false, false),
        meta(a.system_program, false, false),
        meta(call.instruction.program_id, false, false),
    ]
    &&& call.instruction.data@ == create_asset_data(a.template.name@, a.template.uri@)
    &&& seeds_view(call.signer_seeds@) == admin_signer_seeds(bump)
}

/// Outcome of the account checks of minting: the authority must sit at its
/// derived address and the core NFT program at its fixed address. Gives the
/// authority's bump seed.
pub open spec fn mint_checks(program_id: Seq<u8>, a: MintAsset) -> Result<u8, ErrorCode> {
    match seeds_check(program_address_of(admin_seeds(), program_id), a.admin.bytes@) {
        Err(e) => Err(e),
        Ok(bump) => match address_check(core_program_bytes(), a.mpl_core_program.bytes@) {
            Err(e) => Err(e),
            Ok(_) => Ok(bump),
        },
    }
}

impl MintAsset {
    /// The call into the core NFT program that mints the asset into the
    /// collection, with the name and uri of the template.
    pub fn initialize_mint(&self, admin_bump: u8) -> (r: SignedInstruction)
        requires
            fits_u32(self.template.name@),
            fits_u32(self.template.uri@),
        ensures
            is_asset_call(r, *self, admin_bump),
    {
        let instruction = create_v1(
            &self.mint,
            &self.metaplex_collection,
            &self.admin,
            &self.user,
            &self.user,
            &self.system_program,
            &self.template.name,
            &self.template.uri,
        );
        let signer_seeds = admin_signer(admin_bump);
        SignedInstruction { instruction, signer_seeds }
    }
}

} // verus!
