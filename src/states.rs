use vstd::prelude::*;
use vstd::utf8::encode_utf8;

use crate::key::Key;

verus! {

/// Bytes of the tag that the framework writes before each record.
pub const DISCRIMINATOR_LEN: usize = 8;

/// Bytes reserved for a template account: the tag, then room for the name, the
/// uri, the creator and the price.
pub const TEMPLATE_SPACE: usize = 8 + 25 + 200 + 32 + 8;

/// Bytes reserved for the collection account: the tag and one address.
pub const COLLECTION_SPACE: usize = 8 + 32;

/// A mintable item: its name, the location of its metadata, who created it,
/// and its price.
#[derive(Clone, Debug)]
pub struct Template {
    pub name: String,
    pub uri: String,
    pub creator: Key,
    pub price: u64,
}

/// The one collection of the program: the address of the collection object
/// that the core NFT program keeps.
#[derive(Clone, Copy, Debug)]
pub struct Collection {
    pub collection_address: Key,
}

/// Bytes that a template with this name and uri takes in its account: the
/// tag, each string with its 4-byte length, the creator and the price.
pub open spec fn template_data_len(name: Seq<char>, uri: Seq<char>) -> nat {
    (DISCRIMINATOR_LEN + 4 + encode_utf8(name).len() + 4 + encode_utf8(uri).len() + 32 + 8) as nat
}

/// Whether a template with this name and uri fits in its account.
pub open spec fn template_fits_spec(name: Seq<char>, uri: Seq<char>) -> bool {
    template_data_len(name, uri) <= TEMPLATE_SPACE
}

/// Whether a template with this name and uri fits in the space reserved for it.
pub fn template_fits(name: &str, uri: &str) -> (r: bool)
    ensures
        r == template_fits_spec(name@, uri@),
{
    let fixed: usize = DISCRIMINATOR_LEN + 4 + 4 + 32 + 8;
    let room: usize = TEMPLATE_SPACE - fixed;
    let n = name.as_bytes().len();
    let u = uri.as_bytes().len();
    n <= room && u <= room - n
}

} // verus!
