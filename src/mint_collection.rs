use vstd::prelude::*;

use crate::cpi::{
    core_program_bytes, create_collection_data, create_collection_v1, fits_u32, meta,
    SignedInstruction,
};
use crate::constraints::{address_check, seeds_check, ErrorCode};
use crate::key::Key;
use crate::pda::{
    admin_seeds, admin_signer, admin_signer_seeds, collection_seeds, program_address_of, seeds_view,
};
use crate::states::Collection;

verus! {

/// Accounts of collection creation: the program's collection record and its
/// address, the user who pays, the program's signing authority, the new
/// collection object (which signs), the system program and the core NFT
/// program.
#[derive(Clone, Copy, Debug)]
pub struct MintCollection {
    pub collection_account_key: Key,
    pub collection_account: Collection,
    pub user: Key,
    pub admin: Key,
    pub collection: Key,
    pub system_program: Key,
    pub mpl_core_program: Key,
}

/// Whether `call` asks the core NFT program to create the collection of `a`
/// under `name` and `uri`, with the program's authority (bump seed `bump`) as
/// its update authority and signer, and the user as payer.
pub open spec fn is_collection_call(
    call: SignedInstruction,
    a: MintCollection,
    name: Seq<char>,
    uri: Seq<char>,
    bump: u8,
) -> bool {
    &&& call.instruction.program_id.bytes@ == core_program_bytes()
    &&& call.instruction.accounts@ == seq![
        meta(a.collection, true, true),
        meta(a.admin, false, false),
        meta(a.user, true, true),
        meta(a.system_program, false, false),
    ]
    &&& call.instruction.data@ == create_collection_data(name, uri)
    &&& seeds_view(call.signer_seeds@) == admin_signer_seeds(bump)
}

/// The accounts once the collection record holds the new collection's
/// address.
pub open spec fn recorded(a: MintCollection) -> MintCollection {
    MintCollection { collection_account: Collection { collection_address: a.collection }, ..a }
}

/// Outcome of the account checks of collection creation: the collection
/// record must sit at its derived address, the authority at its own, and the
/// core NFT program at its fixed address. Gives the authority's bump seed.
pub open spec fn collection_checks(program_id: Seq<u8>, a: MintCollection) -> Result<u8, ErrorCode> {
    match seeds_check(program_address_of(collection_seeds(), program_id), a.collection_account_key.bytes@) {
        Err(e) => Err(e),
        Ok(_) => match seeds_check(program_address_of(admin_seeds(), program_id), a.admin.bytes@) {
            Err(e) => Err(e),
            Ok(bump) => match address_check(core_program_bytes(), a.mpl_core_program.bytes@) {
                Err(e) => Err(e),
                Ok(_) => Ok(bump),
            },
        },
    }
}

impl MintCollection {
    /// Records the new collection's address in the program's collection
    /// record, and gives the call into the core NFT program that creates the
    /// collection. The caller performs that call; if it fails, the
    /// transaction aborts and the record is discarded with it.
    pub fn initialize_collection(&mut self, name: String, uri: String, admin_bump: u8) -> (r:
        SignedInstruction)
        requires
            fits_u32(name@),
            fits_u32(uri@),
        ensures
            is_collection_call(r, *old(self), name@, uri@, admin_bump),
            *final(self) == recorded(*old(self)),
    {
        let instruction = create_collection_v1(
            &self.collection,
            &self.admin,
            &self.user,
            &self.system_program,
            &name,
            &uri,
        );
        let signer_seeds = admin_signer(admin_bump);
        self.collection_account.collection_address = self.collection;
        SignedInstruction { instruction, signer_seeds }
    }
}

} // verus!
