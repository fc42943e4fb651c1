use vstd::prelude::*;

use crate::constraints::{seeds_check, ErrorCode};
use crate::key::Key;
use crate::pda::{program_address_of, template_seeds};
use crate::states::{template_fits_spec, Template};

verus! {

/// Accounts of template creation: the new template record and its address,
/// the creator who signs and pays, and the system program.
#[derive(Clone, Debug)]
pub struct CreateTemplate {
    pub template_key: Key,
    pub template: Template,
    pub user: Key,
    pub system_program: Key,
}

/// Outcome of template creation for these accounts and arguments: the
/// template must sit at the address derived from its name and creator, and
/// must fit in the space reserved for it.
pub open spec fn create_template_outcome(
    program_id: Seq<u8>,
    a: CreateTemplate,
    name: Seq<char>,
    uri: Seq<char>,
) -> Result<(), ErrorCode> {
    let derived = program_address_of(template_seeds(name, a.user.bytes@), program_id);
    match seeds_check(derived, a.template_key.bytes@) {
        Err(e) => Err(e),
        Ok(_) => if template_fits_spec(name, uri) {
            Ok(())
        } else {
            Err(ErrorCode::AccountDidNotSerialize)
        },
    }
}

/// Whether `after` is `before` with the template holding the name, uri and
/// price given, and the user as its creator.
pub open spec fn filled(
    before: CreateTemplate,
    after: CreateTemplate,
    name: Seq<char>,
    uri: Seq<char>,
    price: u64,
) -> bool {
    &&& after.template.name@ == name
    &&& after.template.uri@ == uri
    &&& after.template.creator == before.user
    &&& after.template.price == price
    &&& after.template_key == before.template_key
    &&& after.user == before.user
    &&& after.system_program == before.system_program
}

impl CreateTemplate {
    /// Fills the new template with the name, uri and price given, and records
    /// the signing user as its creator.
    pub fn create_template(&mut self, name: String, uri: String, price: u64) -> (r: Result<(), ErrorCode>)
        ensures
            r == Ok::<(), ErrorCode>(()),
            filled(*old(self), *final(self), name@, uri@, price),
    {
        self.template.name = name;
        self.template.creator = self.user;
        self.template.uri = uri;
        self.template.price = price;
        Ok(())
    }
}

} // verus!
