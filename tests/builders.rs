use forge::address::{find_program_address, Address};
use forge::builders::{enhance, init_enhance, initialize, mint, new, verify};
use forge::consts::{CHROMIUM_MINT_ADDRESS, PROGRAM_ID, SLOT_HASHES_SYSVAR_ID};
use forge::loaders::{
    collection_authority_seed_list, config_seed_list, enhancer_seed_list, get_associated_token_address,
    treasury_seed_list,
};

fn a(b: u8) -> Address {
    Address { bytes: [b; 32] }
}

fn pda(seeds: &Vec<Vec<u8>>) -> (Address, u8) {
    find_program_address(seeds, &Address { bytes: PROGRAM_ID }).unwrap()
}

#[test]
fn initialize_names_treasury() {
    let ix = initialize(a(1)).unwrap();
    let (treasury, bump) = pda(&treasury_seed_list());
    assert_eq!(ix.program_id.bytes, PROGRAM_ID);
    assert_eq!(ix.accounts.len(), 3);
    assert_eq!(ix.accounts[1].pubkey, treasury);
    assert_eq!(ix.data, vec![2, bump]);
}

#[test]
fn verify_names_authority() {
    let ix = verify(a(1), a(2)).unwrap();
    let (auth, bump) = pda(&collection_authority_seed_list());
    assert_eq!(ix.accounts[1].pubkey, auth);
    assert_eq!(ix.accounts[2].pubkey, a(2));
    assert_eq!(ix.data, vec![3, bump]);
}

#[test]
fn new_encodes_pickaxe_recipe() {
    let ix = new(a(1), a(9)).unwrap();
    let (config, config_bump) = pda(&config_seed_list(&a(9)));
    let (_, auth_bump) = pda(&collection_authority_seed_list());
    assert_eq!(ix.accounts.len(), 10);
    assert_eq!(ix.accounts[3].pubkey, config);
    assert!(ix.accounts[1].is_signer);
    assert_eq!(ix.data[0], 1);
    assert_eq!(&ix.data[ix.data.len() - 2..], &[config_bump, auth_bump]);
}

#[test]
fn mint_names_token_accounts() {
    let ix = mint(a(1), a(9), a(3), "wood".to_string()).unwrap();
    assert_eq!(ix.accounts.len(), 12);
    assert_eq!(ix.accounts[1].pubkey, a(3));
    let wood_tokens = get_associated_token_address(&a(1), &ix.accounts[10].pubkey).unwrap();
    assert_eq!(ix.accounts[11].pubkey, wood_tokens);
    assert_eq!(&ix.data[0..9], &[0, 4, 0, 0, 0, b'w', b'o', b'o', b'd']);
}

#[test]
fn associated_token_address_matches_spl() {
    let wallet = solana_program::pubkey::Pubkey::new_from_array([1; 32]);
    let mint = solana_program::pubkey::Pubkey::new_from_array(CHROMIUM_MINT_ADDRESS);
    let expected = spl_associated_token_account::get_associated_token_address(&wallet, &mint);
    let got = get_associated_token_address(&a(1), &Address { bytes: CHROMIUM_MINT_ADDRESS }).unwrap();
    assert_eq!(got.bytes, expected.to_bytes());
}

#[test]
fn init_enhance_and_enhance_name_session() {
    let (session, bump) = pda(&enhancer_seed_list(&a(1), &a(5)));
    let ix = init_enhance(a(1), a(5)).unwrap();
    assert_eq!(ix.accounts.len(), 8);
    assert_eq!(ix.accounts[2].pubkey, session);
    assert_eq!(ix.accounts[6].pubkey.bytes, SLOT_HASHES_SYSVAR_ID);
    assert_eq!(ix.data, vec![4, bump]);
    let (_, auth_bump) = pda(&collection_authority_seed_list());
    let ix = enhance(a(1), a(5), a(6), a(7)).unwrap();
    assert_eq!(ix.accounts.len(), 9);
    assert_eq!(ix.accounts[5].pubkey, session);
    assert_eq!(ix.data, vec![5, bump, auth_bump]);
}
