use std::str::FromStr;

use anchor_lang::prelude::Pubkey;
use mint_pay::constraints::check_seeds;
use mint_pay::pda::{admin_address, admin_signer, collection_address, template_address};
use mint_pay::states::{template_fits, TEMPLATE_SPACE};
use mint_pay::{
    create_template, initialize_collection, initialize_mint, CreateTemplate, ErrorCode, Key,
    MintAsset, MintCollection, Template,
};

const PROGRAM: &str = "HueUgKCWC6Q6cj7g9dWLixhwE4uXH7CGBF4pn9ugXWWr";
const CORE: &str = "CoREENxT6tW1HoK8ypY1SxRMZTcVPm7R94rH4PZNhX7d";

fn pubkey(s: &str) -> Pubkey {
    Pubkey::from_str(s).unwrap()
}

fn key(s: &str) -> Key {
    Key::new(pubkey(s).to_bytes())
}

fn filled(b: u8) -> Key {
    Key::new([b; 32])
}

fn empty_template() -> Template {
    Template { name: String::new(), uri: String::new(), creator: filled(0), price: 0 }
}

fn pda(seeds: &[&[u8]]) -> (Key, u8) {
    let (k, bump) = Pubkey::find_program_address(seeds, &pubkey(PROGRAM));
    (Key::new(k.to_bytes()), bump)
}

fn borsh_str(s: &str) -> Vec<u8> {
    let mut v = (s.len() as u32).to_le_bytes().to_vec();
    v.extend_from_slice(s.as_bytes());
    v
}

fn collection_accounts() -> MintCollection {
    MintCollection {
        collection_account_key: pda(&[b"collection"]).0,
        collection_account: mint_pay::Collection { collection_address: filled(0) },
        user: filled(1),
        admin: pda(&[b"admin"]).0,
        collection: filled(2),
        system_program: filled(0),
        mpl_core_program: key(CORE),
    }
}

fn asset_accounts() -> MintAsset {
    MintAsset {
        user: filled(1),
        recipient: filled(3),
        mint: filled(4),
        template: Template {
            name: "Sword".to_string(),
            uri: "https://example.com/sword.json".to_string(),
            creator: filled(5),
            price: 10,
        },
        metaplex_collection: filled(2),
        admin: pda(&[b"admin"]).0,
        system_program: filled(0),
        mpl_core_program: key(CORE),
    }
}

fn template_accounts(name: &str, user: Key) -> CreateTemplate {
    CreateTemplate {
        template_key: pda(&[b"template", name.as_bytes(), &user.bytes]).0,
        template: empty_template(),
        user,
        system_program: filled(0),
    }
}

#[test]
fn keys_compare_by_bytes() {
    let mut b = [7u8; 32];
    assert!(filled(7).same(&Key::new(b)));
    assert!(filled(7) == Key::new(b));
    b[31] = 8;
    assert!(!filled(7).same(&Key::new(b)));
    assert!(filled(7) != Key::new(b));
}

#[test]
fn admin_address_is_the_runtime_derivation() {
    let (k, bump) = admin_address(&key(PROGRAM)).unwrap();
    assert_eq!((k, bump), pda(&[b"admin"]));
}

#[test]
fn collection_address_is_the_runtime_derivation() {
    let (k, bump) = collection_address(&key(PROGRAM)).unwrap();
    assert_eq!((k, bump), pda(&[b"collection"]));
    assert!(k != admin_address(&key(PROGRAM)).unwrap().0);
}

#[test]
fn template_address_depends_on_name_and_creator() {
    let user = filled(9);
    let a = template_address(&key(PROGRAM), "Sword", &user).unwrap();
    assert_eq!(a, pda(&[b"template", b"Sword", &user.bytes]));
    let b = template_address(&key(PROGRAM), "Shield", &user).unwrap();
    assert!(a.0 != b.0);
    let c = template_address(&key(PROGRAM), "Sword", &filled(10)).unwrap();
    assert!(a.0 != c.0);
}

#[test]
fn template_address_refuses_long_names() {
    let name32 = "n".repeat(32);
    assert!(template_address(&key(PROGRAM), &name32, &filled(9)).is_some());
    let name33 = "n".repeat(33);
    assert!(template_address(&key(PROGRAM), &name33, &filled(9)).is_none());
}

#[test]
fn admin_signer_seeds_are_tag_and_bump() {
    assert_eq!(admin_signer(254), vec![b"admin".to_vec(), vec![254u8]]);
    assert_eq!(admin_signer(0), vec![b"admin".to_vec(), vec![0u8]]);
}

#[test]
fn check_seeds_outcomes() {
    assert_eq!(check_seeds(None, &filled(1)), Err(ErrorCode::InvalidSeeds));
    assert_eq!(check_seeds(Some((filled(1), 200)), &filled(1)), Ok(200));
    assert_eq!(check_seeds(Some((filled(1), 200)), &filled(2)), Err(ErrorCode::ConstraintSeeds));
}

#[test]
fn template_space_bounds() {
    assert_eq!(TEMPLATE_SPACE, 273);
    assert!(template_fits("", ""));
    assert!(template_fits(&"a".repeat(17), &"b".repeat(200)));
    assert!(!template_fits(&"a".repeat(18), &"b".repeat(200)));
    assert!(template_fits(&"a".repeat(32), &"b".repeat(185)));
    assert!(!template_fits(&"a".repeat(32), &"b".repeat(186)));
    // two bytes each in UTF-8
    assert!(!template_fits(&"é".repeat(9), &"b".repeat(200)));
}

#[test]
fn method_fills_template() {
    let mut accounts = template_accounts("Sword", filled(9));
    let before = accounts.template_key;
    let r = accounts.create_template("Sword".to_string(), "ipfs://sword".to_string(), 42);
    assert_eq!(r, Ok(()));
    assert_eq!(accounts.template.name, "Sword");
    assert_eq!(accounts.template.uri, "ipfs://sword");
    assert_eq!(accounts.template.creator, filled(9));
    assert_eq!(accounts.template.price, 42);
    assert_eq!(accounts.template_key, before);
}

#[test]
fn create_template_fills_record() {
    let mut accounts = template_accounts("Sword", filled(9));
    let r = create_template(
        &key(PROGRAM),
        &mut accounts,
        "Sword".to_string(),
        "ipfs://sword".to_string(),
        1_000_000,
    );
    assert_eq!(r, Ok(()));
    assert_eq!(accounts.template.name, "Sword");
    assert_eq!(accounts.template.uri, "ipfs://sword");
    assert_eq!(accounts.template.creator, filled(9));
    assert_eq!(accounts.template.price, 1_000_000);
}

#[test]
fn create_template_rejects_wrong_address() {
    let mut accounts = template_accounts("Sword", filled(9));
    accounts.template_key = filled(3);
    let r = create_template(&key(PROGRAM), &mut accounts, "Sword".to_string(), "u".to_string(), 5);
    assert_eq!(r, Err(ErrorCode::ConstraintSeeds));
    assert_eq!(accounts.template.name, "");
    assert_eq!(accounts.template.price, 0);
    assert_eq!(accounts.template.creator, filled(0));
}

#[test]
fn create_template_rejects_other_creator() {
    let mut accounts = template_accounts("Sword", filled(9));
    accounts.user = filled(8);
    let r = create_template(&key(PROGRAM), &mut accounts, "Sword".to_string(), "u".to_string(), 5);
    assert_eq!(r, Err(ErrorCode::ConstraintSeeds));
}

#[test]
fn create_template_rejects_long_name() {
    let name = "n".repeat(33);
    let mut accounts = CreateTemplate {
        template_key: filled(3),
        template: empty_template(),
        user: filled(9),
        system_program: filled(0),
    };
    let r = create_template(&key(PROGRAM), &mut accounts, name, "u".to_string(), 5);
    assert_eq!(r, Err(ErrorCode::InvalidSeeds));
    assert_eq!(accounts.template.name, "");
}

#[test]
fn create_template_rejects_oversized_record() {
    let name = "n".repeat(20);
    let mut accounts = template_accounts(&name, filled(9));
    let r = create_template(&key(PROGRAM), &mut accounts, name.clone(), "u".repeat(198), 5);
    assert_eq!(r, Err(ErrorCode::AccountDidNotSerialize));
    assert_eq!(accounts.template.uri, "");
    let r = create_template(&key(PROGRAM), &mut accounts, name, "u".repeat(197), 5);
    assert_eq!(r, Ok(()));
    assert_eq!(accounts.template.uri.len(), 197);
}

#[test]
fn initialize_collection_builds_signed_call() {
    let mut accounts = collection_accounts();
    let r = initialize_collection(&key(PROGRAM), &mut accounts, "Heroes".to_string(), "ipfs://h".to_string())
        .unwrap();
    let ix = &r.instruction;
    assert_eq!(ix.program_id, key(CORE));
    assert_eq!(ix.program_id.bytes, mpl_core::ID.to_bytes());
    let metas: Vec<(Key, bool, bool)> =
        ix.accounts.iter().map(|m| (m.pubkey, m.is_signer, m.is_writable)).collect();
    assert_eq!(
        metas,
        vec![
            (filled(2), true, true),
            (pda(&[b"admin"]).0, false, false),
            (filled(1), true, true),
            (filled(0), false, false),
        ]
    );
    let mut data = vec![1u8];
    data.extend(borsh_str("Heroes"));
    data.extend(borsh_str("ipfs://h"));
    data.push(0);
    assert_eq!(ix.data, data);
    assert_eq!(r.signer_seeds, vec![b"admin".to_vec(), vec![pda(&[b"admin"]).1]]);
    assert_eq!(accounts.collection_account.collection_address, filled(2));
}

#[test]
fn initialize_collection_rejects_wrong_record() {
    let mut accounts = collection_accounts();
    accounts.collection_account_key = filled(6);
    let r = initialize_collection(&key(PROGRAM), &mut accounts, "H".to_string(), "u".to_string());
    assert_eq!(r.unwrap_err(), ErrorCode::ConstraintSeeds);
    assert_eq!(accounts.collection_account.collection_address, filled(0));
}

#[test]
fn initialize_collection_rejects_wrong_admin() {
    let mut accounts = collection_accounts();
    accounts.admin = filled(6);
    let r = initialize_collection(&key(PROGRAM), &mut accounts, "H".to_string(), "u".to_string());
    assert_eq!(r.unwrap_err(), ErrorCode::ConstraintSeeds);
    assert_eq!(accounts.collection_account.collection_address, filled(0));
}

#[test]
fn initialize_collection_rejects_other_program() {
    let mut accounts = collection_accounts();
    accounts.mpl_core_program = filled(6);
    let r = initialize_collection(&key(PROGRAM), &mut accounts, "H".to_string(), "u".to_string());
    assert_eq!(r.unwrap_err(), ErrorCode::ConstraintAddress);
    assert_eq!(accounts.collection_account.collection_address, filled(0));
}

#[test]
fn method_records_collection() {
    let mut accounts = collection_accounts();
    let r = accounts.initialize_collection("H".to_string(), "u".to_string(), 7);
    assert_eq!(r.signer_seeds, vec![b"admin".to_vec(), vec![7u8]]);
    assert_eq!(r.instruction.data, vec![1, 1, 0, 0, 0, b'H', 1, 0, 0, 0, b'u', 0]);
    assert_eq!(accounts.collection_account.collection_address, filled(2));
}

#[test]
fn initialize_mint_builds_signed_call() {
    let accounts = asset_accounts();
    let r = initialize_mint(&key(PROGRAM), &accounts).unwrap();
    let ix = &r.instruction;
    assert_eq!(ix.program_id, key(CORE));
    let core = key(CORE);
    let metas: Vec<(Key, bool, bool)> =
        ix.accounts.iter().map(|m| (m.pubkey, m.is_signer, m.is_writable)).collect();
    assert_eq!(
        metas,
        vec![
            (filled(4), true, true),
            (filled(2), false, true),
            (pda(&[b"admin"]).0, true, false),
            (filled(1), true, true),
            (filled(1), false, false),
            (core, false, false),
            (filled(0), false, false),
            (core, false, false),
        ]
    );
    let mut data = vec![0u8, 0u8];
    data.extend(borsh_str("Sword"));
    data.extend(borsh_str("https://example.com/sword.json"));
    data.push(0);
    assert_eq!(ix.data, data);
    assert_eq!(r.signer_seeds, vec![b"admin".to_vec(), vec![pda(&[b"admin"]).1]]);
}

#[test]
fn initialize_mint_rejects_wrong_admin() {
    let mut accounts = asset_accounts();
    accounts.admin = filled(6);
    assert_eq!(initialize_mint(&key(PROGRAM), &accounts).unwrap_err(), ErrorCode::ConstraintSeeds);
}

#[test]
fn initialize_mint_rejects_other_program() {
    let mut accounts = asset_accounts();
    accounts.mpl_core_program = filled(6);
    assert_eq!(initialize_mint(&key(PROGRAM), &accounts).unwrap_err(), ErrorCode::ConstraintAddress);
}

#[test]
fn method_mints_with_template_strings() {
    let mut accounts = asset_accounts();
    accounts.template.name = "é".to_string();
    accounts.template.uri = String::new();
    let r = accounts.initialize_mint(3);
    assert_eq!(r.instruction.data, vec![0, 0, 2, 0, 0, 0, 0xc3, 0xa9, 0, 0, 0, 0, 0]);
    assert_eq!(r.signer_seeds, vec![b"admin".to_vec(), vec![3u8]]);
}
