use forge::address::{find_program_address, Address};
use forge::asset::{load_asset, AssetView, UpdateAuthority};
use forge::attributes::Attribute;
use forge::consts::{
    ASSOCIATED_TOKEN_PROGRAM_ID, CHROMIUM_MINT_ADDRESS, COAL_MINT_ADDRESS, COLLECTION,
    INITIALIZER_ADDRESS, MPL_CORE_PROGRAM_ID, ONE_TOKEN, PROGRAM_ID, SLOT_HASHES_SYSVAR_ID,
    SYSTEM_PROGRAM_ID, SYSVAR_PROGRAM_ID, TOKEN_PROGRAM_ID,
};
use forge::error::ProgramError;
use forge::instruction::{
    EnhanceArgs, InitializeArgs, InitializeEnhanceArgs, MintV1Args, NewV1Args, VerifyArgs,
};
use forge::loaders::{
    collection_authority_seed_list, config_seed_list, enhancer_seed_list, load_enhance, load_token_account, treasury_seed_list,
    AccountView,
};
use forge::processor::{
    close_session, process_enhance, process_initialize,
    process_initialize_enhance, process_instruction, process_mint, process_new, process_verify,
};
use forge::token::TokenAccount;

fn a(bytes: [u8; 32]) -> Address {
    Address { bytes }
}

fn view(key: Address, owner: [u8; 32], data: Vec<u8>) -> AccountView {
    AccountView {
        key,
        owner: a(owner),
        lamports: 1_000_000,
        data,
        is_signer: false,
        is_writable: true,
        executable: false,
    }
}

fn signer(key: Address) -> AccountView {
    let mut v = view(key, SYSTEM_PROGRAM_ID, vec![]);
    v.is_signer = true;
    v
}

fn program(id: [u8; 32]) -> AccountView {
    let mut v = view(a(id), [7; 32], vec![1]);
    v.executable = true;
    v.is_writable = false;
    v
}

fn mint_data() -> Vec<u8> {
    let mut d = vec![0u8; 82];
    d[44] = 11;
    d[45] = 1;
    d
}

fn token_data(mint: [u8; 32], owner: [u8; 32], amount: u64) -> Vec<u8> {
    let mut d = vec![0u8; 165];
    d[0..32].copy_from_slice(&mint);
    d[32..64].copy_from_slice(&owner);
    d[64..72].copy_from_slice(&amount.to_le_bytes());
    d[108] = 1;
    d
}

fn pda(seeds: &Vec<Vec<u8>>) -> (Address, u8) {
    find_program_address(seeds, &a(PROGRAM_ID)).unwrap()
}

fn collection_authority() -> (Address, u8) {
    pda(&collection_authority_seed_list())
}

fn define_pickaxe(collection: Address) -> Vec<u8> {
    let (auth, auth_bump) = collection_authority();
    let (config, config_bump) = pda(&config_seed_list(&collection));
    let mut coal = view(a(COAL_MINT_ADDRESS), TOKEN_PROGRAM_ID, mint_data());
    coal.is_writable = false;
    let accounts = vec![
        signer(a(INITIALIZER_ADDRESS)),
        view(collection, SYSTEM_PROGRAM_ID, vec![]),
        view(auth, SYSTEM_PROGRAM_ID, vec![]),
        view(config, SYSTEM_PROGRAM_ID, vec![]),
        program(MPL_CORE_PROGRAM_ID),
        program(TOKEN_PROGRAM_ID),
        program(ASSOCIATED_TOKEN_PROGRAM_ID),
        program(SYSTEM_PROGRAM_ID),
        coal,
    ];
    let args = NewV1Args {
        name: "Miner's Pickaxe".to_string(),
        uri: "https://minechain.gg/metadata.pickaxe.json".to_string(),
        multiplier: 70,
        durability: 1000,
        ingredients: [a(COAL_MINT_ADDRESS), a(SYSTEM_PROGRAM_ID), a(SYSTEM_PROGRAM_ID)],
        amounts: [ONE_TOKEN, 0, 0],
        config_bump,
        collection_authority_bump: auth_bump,
    };
    let plan = process_new(&accounts, &args).unwrap();
    assert_eq!(plan.config.address, config);
    assert_eq!(plan.config.space, 128);
    let attrs: Vec<(String, String)> =
        plan.collection.attributes.iter().map(|x| (x.key.clone(), x.value.clone())).collect();
    assert_eq!(attrs[0], ("multiplier".to_string(), "70".to_string()));
    assert_eq!(attrs[1], ("durability".to_string(), "1000".to_string()));
    plan.config.data
}

fn craft_accounts(collection: Address, config_data: Vec<u8>, user: Address, balance: u64) -> Vec<AccountView> {
    let (auth, _) = collection_authority();
    let (config, _) = pda(&config_seed_list(&collection));
    vec![
        signer(user),
        view(a([50; 32]), SYSTEM_PROGRAM_ID, vec![]),
        view(collection, MPL_CORE_PROGRAM_ID, vec![1]),
        view(auth, SYSTEM_PROGRAM_ID, vec![]),
        view(config, PROGRAM_ID, config_data),
        program(MPL_CORE_PROGRAM_ID),
        program(TOKEN_PROGRAM_ID),
        program(SYSTEM_PROGRAM_ID),
        view(a(COAL_MINT_ADDRESS), TOKEN_PROGRAM_ID, mint_data()),
        view(a([60; 32]), TOKEN_PROGRAM_ID, token_data(COAL_MINT_ADDRESS, user.bytes, balance)),
    ]
}

#[test]
fn define_then_craft_with_one_whole_token() {
    let collection = a([30; 32]);
    let data = define_pickaxe(collection);
    let user = a([40; 32]);
    let (_, auth_bump) = collection_authority();
    let args = MintV1Args { resource: "coal".to_string(), config_bump: 0, collection_authority_bump: auth_bump };

    let accounts = craft_accounts(collection, data.clone(), user, ONE_TOKEN);
    let plan = process_mint(&accounts, &args).unwrap();
    assert_eq!(plan.debits.len(), 1);
    assert_eq!(plan.debits[0].mint, a(COAL_MINT_ADDRESS));
    assert_eq!(plan.debits[0].token_account, a([60; 32]));
    assert_eq!(plan.debits[0].amount, ONE_TOKEN);
    assert_eq!(ONE_TOKEN - plan.debits[0].amount, 0);
    assert_eq!(plan.item.name, "Miner's Pickaxe");

    let short = craft_accounts(collection, data.clone(), user, ONE_TOKEN - 1);
    assert_eq!(process_mint(&short, &args).map(|_| ()), Err(ProgramError::InsufficientFunds));
    let held = load_token_account(&short[9], Some(&user), &a(COAL_MINT_ADDRESS), true).unwrap();
    assert_eq!(held.amount, ONE_TOKEN - 1);

    let iron = MintV1Args { resource: "iron".to_string(), config_bump: 0, collection_authority_bump: auth_bump };
    assert_eq!(process_mint(&accounts, &iron).map(|_| ()), Err(ProgramError::Custom(8)));
}

#[test]
fn craft_rejects_foreign_token_account_and_missing_accounts() {
    let collection = a([31; 32]);
    let data = define_pickaxe(collection);
    let user = a([41; 32]);
    let (_, auth_bump) = collection_authority();
    let args = MintV1Args { resource: "wood".to_string(), config_bump: 0, collection_authority_bump: auth_bump };
    let mut accounts = craft_accounts(collection, data.clone(), user, 5 * ONE_TOKEN);
    accounts[9].data = token_data(COAL_MINT_ADDRESS, [99; 32], 5 * ONE_TOKEN);
    assert_eq!(process_mint(&accounts, &args).map(|_| ()), Err(ProgramError::InvalidAccountData));
    let mut short = craft_accounts(collection, data, user, 5 * ONE_TOKEN);
    short.truncate(9);
    assert_eq!(process_mint(&short, &args).map(|_| ()), Err(ProgramError::NotEnoughAccountKeys));
}

#[test]
fn only_initializer_defines_recipes() {
    let collection = a([32; 32]);
    let (auth, auth_bump) = collection_authority();
    let (config, config_bump) = pda(&config_seed_list(&collection));
    let accounts = vec![
        signer(a([1; 32])),
        view(collection, SYSTEM_PROGRAM_ID, vec![]),
        view(auth, SYSTEM_PROGRAM_ID, vec![]),
        view(config, SYSTEM_PROGRAM_ID, vec![]),
        program(MPL_CORE_PROGRAM_ID),
        program(TOKEN_PROGRAM_ID),
        program(ASSOCIATED_TOKEN_PROGRAM_ID),
        program(SYSTEM_PROGRAM_ID),
    ];
    let args = NewV1Args {
        name: "x".to_string(),
        uri: "y".to_string(),
        multiplier: 1,
        durability: 2,
        ingredients: [a(SYSTEM_PROGRAM_ID), a(SYSTEM_PROGRAM_ID), a(SYSTEM_PROGRAM_ID)],
        amounts: [0, 0, 0],
        config_bump,
        collection_authority_bump: auth_bump,
    };
    assert_eq!(process_new(&accounts, &args).map(|_| ()), Err(ProgramError::Custom(7)));
}

#[test]
fn treasury_initialization() {
    let (treasury, bump) = pda(&treasury_seed_list());
    let accounts = vec![signer(a(INITIALIZER_ADDRESS)), view(treasury, SYSTEM_PROGRAM_ID, vec![]), program(SYSTEM_PROGRAM_ID)];
    let rec = process_initialize(&accounts, &InitializeArgs { treasury_bump: bump }).unwrap();
    assert_eq!(rec.address, treasury);
    assert_eq!(rec.data, vec![101, 0, 0, 0, 0, 0, 0, 0]);
    let wrong_bump = process_initialize(&accounts, &InitializeArgs { treasury_bump: bump.wrapping_sub(1) });
    assert_eq!(wrong_bump.map(|_| ()), Err(ProgramError::InvalidSeeds));
    let stranger = vec![signer(a([2; 32])), view(treasury, SYSTEM_PROGRAM_ID, vec![]), program(SYSTEM_PROGRAM_ID)];
    assert_eq!(process_initialize(&stranger, &InitializeArgs { treasury_bump: bump }).map(|_| ()), Err(ProgramError::Custom(7)));
}

#[test]
fn proxy_transfer_amounts() {
    let (auth, bump) = collection_authority();
    let accounts = vec![signer(a(INITIALIZER_ADDRESS)), view(auth, SYSTEM_PROGRAM_ID, vec![]), view(a([3; 32]), SYSTEM_PROGRAM_ID, vec![]), program(SYSTEM_PROGRAM_ID)];
    let plan = process_verify(&accounts, &VerifyArgs { collection_authority_bump: bump }, 890_880).unwrap();
    assert_eq!(plan.deposit, 10_000 + 890_880);
    assert_eq!(plan.payout, 10_000);
}

fn pickaxe_asset() -> AssetView {
    AssetView {
        update_authority: UpdateAuthority::Collection(a(COLLECTION)),
        attributes: Some(vec![
            Attribute { key: "multiplier".to_string(), value: "70".to_string() },
            Attribute { key: "rarity".to_string(), value: "common".to_string() },
            Attribute { key: "resource".to_string(), value: "coal".to_string() },
            Attribute { key: "durability".to_string(), value: "1000".to_string() },
        ]),
    }
}

fn history(fill: u8) -> AccountView {
    view(a(SLOT_HASHES_SYSVAR_ID), SYSVAR_PROGRAM_ID, vec![fill; 48])
}

fn init_accounts(user: Address, asset: Address, enhancer: AccountView) -> Vec<AccountView> {
    vec![
        signer(user),
        view(asset, MPL_CORE_PROGRAM_ID, vec![1, 2, 3]),
        enhancer,
        view(a(CHROMIUM_MINT_ADDRESS), TOKEN_PROGRAM_ID, mint_data()),
        view(a([70; 32]), TOKEN_PROGRAM_ID, token_data(CHROMIUM_MINT_ADDRESS, user.bytes, 5000)),
        program(TOKEN_PROGRAM_ID),
        history(3),
        program(SYSTEM_PROGRAM_ID),
    ]
}

#[test]
fn session_lifecycle() {
    let user = a([80; 32]);
    let asset = a([81; 32]);
    let (enhancer, bump) = pda(&enhancer_seed_list(&user, &asset));

    let fresh = view(enhancer, SYSTEM_PROGRAM_ID, vec![]);
    let opened = process_initialize_enhance(&init_accounts(user, asset, fresh), &InitializeEnhanceArgs { enhancer_bump: bump }, &pickaxe_asset(), 1000).unwrap();
    assert_eq!(opened.session.slot, 1020);
    assert_eq!(opened.session.authority, user);
    assert_eq!(opened.burn_durability, "1000");
    assert_eq!(opened.record.address, enhancer);
    assert_eq!(opened.record.data.len(), 80);

    // A second opening for the same pair while the session lives fails.
    let live = view(enhancer, PROGRAM_ID, opened.record.data.clone());
    let again = process_initialize_enhance(&init_accounts(user, asset, live), &InitializeEnhanceArgs { enhancer_bump: bump }, &pickaxe_asset(), 1001);
    assert!(again.is_err());
    let mut live_sys = view(enhancer, SYSTEM_PROGRAM_ID, opened.record.data.clone());
    live_sys.is_writable = true;
    let again = process_initialize_enhance(&init_accounts(user, asset, live_sys), &InitializeEnhanceArgs { enhancer_bump: bump }, &pickaxe_asset(), 1001);
    assert_eq!(again.map(|_| ()), Err(ProgramError::AccountAlreadyInitialized));

    let (auth, auth_bump) = collection_authority();
    let args = EnhanceArgs { enhancer_bump: bump, collection_authority_bump: auth_bump };
    let settle_accounts = |record: AccountView| {
        vec![
            signer(user),
            view(a([82; 32]), SYSTEM_PROGRAM_ID, vec![]),
            view(asset, MPL_CORE_PROGRAM_ID, vec![1]),
            view(a(COLLECTION), MPL_CORE_PROGRAM_ID, vec![1]),
            view(auth, SYSTEM_PROGRAM_ID, vec![]),
            record,
            program(MPL_CORE_PROGRAM_ID),
            program(SYSTEM_PROGRAM_ID),
            history(4),
        ]
    };

    // Too early: at or before the target tick.
    for now in [1000u64, 1019, 1020] {
        let accounts = settle_accounts(view(enhancer, PROGRAM_ID, opened.record.data.clone()));
        let r = process_enhance(&accounts, &args, &pickaxe_asset(), now);
        assert_eq!(r.map(|_| ()), Err(ProgramError::Custom(9)));
        assert_eq!(accounts[5].data, opened.record.data);
    }

    let mut accounts = settle_accounts(view(enhancer, PROGRAM_ID, opened.record.data.clone()));
    let plan = process_enhance(&accounts, &args, &pickaxe_asset(), 1021).unwrap();
    assert!((320..=600).contains(&plan.settlement.multiplier));
    assert_eq!(plan.refund, 1_000_000);
    let mut user_view = accounts.remove(0);
    let mut record = accounts.remove(4);
    close_session(&mut user_view, &mut record);
    assert_eq!(user_view.lamports, 2_000_000);
    assert_eq!(record.lamports, 0);
    assert!(record.data.is_empty());

    // Settling the closed session again fails.
    assert_eq!(load_enhance(&record, &user, true), Err(ProgramError::UninitializedAccount));
    let again = process_enhance(&settle_accounts(record), &args, &pickaxe_asset(), 1030);
    assert_eq!(again.map(|_| ()), Err(ProgramError::UninitializedAccount));
}

#[test]
fn settling_someone_elses_session_fails() {
    let user = a([90; 32]);
    let asset = a([91; 32]);
    let (enhancer, bump) = pda(&enhancer_seed_list(&user, &asset));
    let record = forge::state::Enhancer { authority: a([92; 32]), slot: 10, hash: [0; 32] }.to_bytes();
    let (auth, auth_bump) = collection_authority();
    let accounts = vec![
        signer(user),
        view(a([82; 32]), SYSTEM_PROGRAM_ID, vec![]),
        view(asset, MPL_CORE_PROGRAM_ID, vec![1]),
        view(a(COLLECTION), MPL_CORE_PROGRAM_ID, vec![1]),
        view(auth, SYSTEM_PROGRAM_ID, vec![]),
        view(enhancer, PROGRAM_ID, record),
        program(MPL_CORE_PROGRAM_ID),
        program(SYSTEM_PROGRAM_ID),
        history(4),
    ];
    let args = EnhanceArgs { enhancer_bump: bump, collection_authority_bump: auth_bump };
    assert_eq!(process_enhance(&accounts, &args, &pickaxe_asset(), 100).map(|_| ()), Err(ProgramError::InvalidAccountData));
}

#[test]
fn asset_checks() {
    let info = view(a([1; 32]), MPL_CORE_PROGRAM_ID, vec![1]);
    let (d, m, r) = load_asset(&info, &pickaxe_asset()).unwrap();
    assert_eq!((d.as_str(), m, r.as_str()), ("1000", 70, "coal"));
    let mut plus = pickaxe_asset();
    plus.attributes.as_mut().unwrap()[0].value = "+7".to_string();
    assert_eq!(load_asset(&info, &plus).unwrap().1, 7);
    let mut bad = pickaxe_asset();
    bad.attributes.as_mut().unwrap()[0].value = "7x".to_string();
    assert_eq!(load_asset(&info, &bad).map(|_| ()), Err(ProgramError::InvalidAccountData));
    let foreign = AssetView { update_authority: UpdateAuthority::Collection(a([2; 32])), attributes: pickaxe_asset().attributes };
    assert_eq!(load_asset(&info, &foreign).map(|_| ()), Err(ProgramError::InvalidAccountData));
    let wrong_owner = view(a([1; 32]), TOKEN_PROGRAM_ID, vec![1]);
    assert_eq!(load_asset(&wrong_owner, &pickaxe_asset()).map(|_| ()), Err(ProgramError::InvalidAccountOwner));
}

#[test]
fn token_account_unpacking() {
    let ok = token_data([5; 32], [6; 32], 42);
    let t = TokenAccount::unpack(&ok).unwrap();
    assert_eq!((t.mint, t.owner, t.amount), (a([5; 32]), a([6; 32]), 42));
    let mut uninit = ok.clone();
    uninit[108] = 0;
    assert_eq!(TokenAccount::unpack(&uninit).map(|_| ()), Err(ProgramError::UninitializedAccount));
    let mut bad_state = ok.clone();
    bad_state[108] = 3;
    assert_eq!(TokenAccount::unpack(&bad_state).map(|_| ()), Err(ProgramError::InvalidAccountData));
    let mut bad_tag = ok.clone();
    bad_tag[72] = 2;
    assert_eq!(TokenAccount::unpack(&bad_tag).map(|_| ()), Err(ProgramError::InvalidAccountData));
    assert_eq!(TokenAccount::unpack(&ok[..164]).map(|_| ()), Err(ProgramError::InvalidAccountData));
}

#[test]
fn program_address_matches_runtime() {
    let collection = solana_program::pubkey::Pubkey::new_from_array([30; 32]);
    let id = solana_program::pubkey::Pubkey::new_from_array(PROGRAM_ID);
    let (expected, bump) = solana_program::pubkey::Pubkey::find_program_address(&[b"config", collection.as_ref()], &id);
    let (got, got_bump) = pda(&config_seed_list(&a([30; 32])));
    assert_eq!(got.bytes, expected.to_bytes());
    assert_eq!(got_bump, bump);
    assert_eq!(id.to_string(), "HXwf9HxBCZLLJS7uy4q5qAzLiAGLDTp5iWicPNiWC5Vo");
}

#[test]
fn instruction_routing() {
    assert_eq!(process_instruction(&a([1; 32]), &[2, 1]).map(|_| ()), Err(ProgramError::IncorrectProgramId));
    assert!(process_instruction(&a(PROGRAM_ID), &[2, 1]).is_ok());
    assert_eq!(process_instruction(&a(PROGRAM_ID), &[9]).map(|_| ()), Err(ProgramError::InvalidInstructionData));
}
