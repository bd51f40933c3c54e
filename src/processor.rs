use crate::address::{derives_to, Address};
use crate::asset::{load_asset, load_asset_result, AssetView};
use crate::attributes::{attributes_view, decimal, u64_to_decimal, Attribute};
use crate::consts::{
    CHROMIUM_MINT_ADDRESS, INITIALIZER_ADDRESS, MPL_CORE_PROGRAM_ID,
    PROGRAM_ID, SLOT_HASHES_SYSVAR_ID, SYSTEM_PROGRAM_ID, TOKEN_PROGRAM_ID,
    VERIFY_TRANSFER_LAMPORTS,
};
use crate::craft::{balances_cover, craft, crafted_item, is_crafted_template, ItemTemplate};
use crate::enhance::{
    keccak_digest, open_session, opened_session, reveal_input, settle, settlement_matches,
    settlement_outcome, Settlement,
};
use crate::error::{ForgeError, ProgramError};
use crate::instruction::{
    ForgeInstruction, EnhanceArgs, InitializeArgs, InitializeEnhanceArgs, MintV1Args, NewV1Args, VerifyArgs,
};
use crate::loaders::{
    collection_authority_seed_list, collection_authority_seeds, config_seed_list, config_seeds, enhancer_seed_list, enhancer_seeds, load_collection_authority,
    load_config, load_config_result, load_enhance, load_enhance_result, load_mint,
    load_mint_result, load_program, load_signer, load_sysvar, load_token_account,
    load_token_account_result, load_uninitialized_pda, load_uninitialized_pda_result,
    treasury_seed_list, treasury_seeds, AccountView,
};
use crate::random::ENHANCER_TARGET_SLOT;
use crate::state::{u64_at, Config, Enhancer, Treasury, CONFIG_LEN, ENHANCER_LEN, TREASURY_LEN};
use vstd::prelude::*;
use vstd::string::StringExecFns;

verus! {

/// Whether the program at `key` is the executable account `info`.
pub open spec fn program_ok(info: &AccountView, key: Seq<u8>) -> bool {
    info.key@ == key && info.executable
}

/// A record the program is about to allocate at `address` and fill with `data`.
#[derive(Debug)]
pub struct NewRecord {
    pub address: Address,
    pub space: usize,
    pub data: Vec<u8>,
}

/// One ingredient debit: `amount` of `mint`, taken from `token_account`.
#[derive(Debug, Clone, Copy)]
pub struct Debit {
    pub mint: Address,
    pub token_account: Address,
    pub amount: u64,
}

/// Everything a craft does once its checks pass: the debits, in slot order,
/// then the item to mint for the caller.
#[derive(Debug)]
pub struct CraftPlan {
    pub debits: Vec<Debit>,
    pub item: ItemTemplate,
}

/// Amount of slot `i` of the recipe stored in `data`.
pub open spec fn recipe_amount(data: Seq<u8>, i: int) -> u64 {
    u64_at(data, 8 + 8 * i)
}

/// Ingredient of slot `i` of the recipe stored in `data`.
pub open spec fn recipe_ingredient(data: Seq<u8>, i: int) -> Seq<u8> {
    data.subrange(32 + 32 * i, 64 + 32 * i)
}

/// Whether the accounts handed for slot `i` of the recipe stored in `data`
/// are acceptable: an inert slot needs none; an active one needs its mint
/// and a writable token account of that mint held by the signer.
pub open spec fn slot_accounts_ok(accounts: Seq<AccountView>, data: Seq<u8>, i: int) -> bool {
    recipe_amount(data, i) > 0 ==> {
        &&& accounts.len() >= 10 + 2 * i
        &&& accounts[8 + 2 * i].key@ == recipe_ingredient(data, i)
        &&& load_token_account_result(
            &accounts[9 + 2 * i],
            Some(accounts[0].key@),
            recipe_ingredient(data, i),
            true,
        ) is Ok
    }
}

/// The signer's balance in slot `i`, or zero for an inert slot.
pub open spec fn slot_balance(accounts: Seq<AccountView>, data: Seq<u8>, i: int) -> u64 {
    if recipe_amount(data, i) > 0 {
        load_token_account_result(
            &accounts[9 + 2 * i],
            Some(accounts[0].key@),
            recipe_ingredient(data, i),
            true,
        )->Ok_0.2
    } else {
        0
    }
}

pub open spec fn slot_balances(accounts: Seq<AccountView>, data: Seq<u8>) -> Seq<u64> {
    seq![slot_balance(accounts, data, 0), slot_balance(accounts, data, 1), slot_balance(accounts, data, 2)]
}

/// The debits of the first `n` slots: for each active slot, its ingredient,
/// the token account handed for it, and its amount.
pub open spec fn planned_debits(accounts: Seq<AccountView>, data: Seq<u8>, n: int) -> Seq<(Seq<u8>, Seq<u8>, u64)>
    decreases n,
{
    if n <= 0 {
        Seq::empty()
    } else {
        planned_debits(accounts, data, n - 1) + if recipe_amount(data, n - 1) > 0 {
            seq![(recipe_ingredient(data, n - 1), accounts[9 + 2 * (n - 1)].key@, recipe_amount(data, n - 1))]
        } else {
            Seq::empty()
        }
    }
}

pub open spec fn debits_view(d: Seq<Debit>) -> Seq<(Seq<u8>, Seq<u8>, u64)> {
    d.map_values(|x: Debit| (x.mint@, x.token_account@, x.amount))
}

/// Whether every account check of a craft passes.
pub open spec fn craft_accounts_ok(accounts: Seq<AccountView>, args: &MintV1Args) -> bool {
    &&& accounts.len() >= 8
    &&& accounts[0].is_signer
    &&& load_config_result(&accounts[4], accounts[2].key@, false) is Ok
    &&& derives_to(collection_authority_seeds(), PROGRAM_ID@, accounts[3].key@, args.collection_authority_bump)
    &&& program_ok(&accounts[5], MPL_CORE_PROGRAM_ID@)
    &&& program_ok(&accounts[6], TOKEN_PROGRAM_ID@)
    &&& program_ok(&accounts[7], SYSTEM_PROGRAM_ID@)
    &&& accounts[4].data@.len() == CONFIG_LEN
    &&& slot_accounts_ok(accounts, accounts[4].data@, 0)
    &&& slot_accounts_ok(accounts, accounts[4].data@, 1)
    &&& slot_accounts_ok(accounts, accounts[4].data@, 2)
}

/// Recipe amounts of the record stored in `data`.
pub open spec fn recipe_amounts(data: Seq<u8>) -> Seq<u64> {
    seq![recipe_amount(data, 0), recipe_amount(data, 1), recipe_amount(data, 2)]
}

pub open spec fn amounts_covered(amounts: Seq<u64>, balances: Seq<u64>) -> bool {
    forall|i: int| 0 <= i < 3 ==> amounts[i] <= #[trigger] balances[i]
}

/// Crafts one item from the recipe of the collection. Accounts, in order:
/// signer, new asset, collection, collection authority, recipe record,
/// asset program, token program, system program, then a mint and the
/// signer's token account for each slot. Succeeds exactly when every account
/// check passes, the signer's balances cover every active slot, and the
/// resource tag is known; the plan then debits exactly each active slot's
/// amount, in slot order, and mints the item of that tag.
pub fn process_mint(accounts: &Vec<AccountView>, args: &MintV1Args) -> (r: Result<CraftPlan, ProgramError>)
    ensures
        r is Ok <==> craft_accounts_ok(accounts@, args) && amounts_covered(
            recipe_amounts(accounts@[4].data@),
            slot_balances(accounts@, accounts@[4].data@),
        ) && crafted_item(args.resource@) is Some,
        r is Ok ==> debits_view(r->Ok_0.debits@) == planned_debits(accounts@, accounts@[4].data@, 3)
            && is_crafted_template(r->Ok_0.item, args.resource@),
        craft_accounts_ok(accounts@, args) && amounts_covered(
            recipe_amounts(accounts@[4].data@),
            slot_balances(accounts@, accounts@[4].data@),
        ) && crafted_item(args.resource@) is None ==> r == Err::<CraftPlan, ProgramError>(
            ProgramError::Custom(ForgeError::InvalidResource.spec_code()),
        ),
{
    if accounts.len() < 8 {
        return Err(ProgramError::NotEnoughAccountKeys);
    }
    let signer = &accounts[0];
    let collection_info = &accounts[2];
    let collection_authority = &accounts[3];
    let config_info = &accounts[4];
    load_signer(signer)?;
    load_config(config_info, &collection_info.key, false)?;
    load_collection_authority(
        collection_authority,
        &collection_authority_seed_list(),
        args.collection_authority_bump,
        &Address { bytes: PROGRAM_ID },
    )?;
    load_program(&accounts[5], &Address { bytes: MPL_CORE_PROGRAM_ID })?;
    load_program(&accounts[6], &Address { bytes: TOKEN_PROGRAM_ID })?;
    load_program(&accounts[7], &Address { bytes: SYSTEM_PROGRAM_ID })?;
    let config = Config::try_from_bytes(config_info.data.as_slice())?;
    let ghost data = config_info.data@;
    let mut balances: Vec<u64> = vec![0, 0, 0];
    let mut debits: Vec<Debit> = Vec::new();
    let mut i: usize = 0;
    while i < 3
        invariant
            i <= 3,
            accounts@.len() >= 8,
            data == accounts@[4].data@,
            data.len() == CONFIG_LEN,
            config.decodes_from(data),
            signer == &accounts@[0],
            balances@.len() == 3,
            forall|j: int| 0 <= j < i ==> slot_accounts_ok(accounts@, data, j),
            forall|j: int| 0 <= j < i ==> #[trigger] balances@[j] == slot_balance(accounts@, data, j),
            forall|j: int| i <= j < 3 ==> #[trigger] balances@[j] == 0,
            debits_view(debits@) == planned_debits(accounts@, data, i as int),
        decreases 3 - i,
    {
        let amount = config.amounts[i];
        if amount > 0 {
            if accounts.len() < 10 + 2 * i {
                return Err(ProgramError::NotEnoughAccountKeys);
            }
            let mint_info = &accounts[8 + 2 * i];
            let tokens = &accounts[9 + 2 * i];
            if !config.ingredients[i].same_as(&mint_info.key) {
                return Err(ProgramError::InvalidAccountData);
            }
            let held = load_token_account(tokens, Some(&signer.key), &config.ingredients[i], true)?;
            balances.set(i, held.amount);
            let ghost before = debits@;
            debits.push(Debit { mint: config.ingredients[i], token_account: tokens.key, amount });
            proof {
                assert(debits_view(debits@) =~= debits_view(before).push(
                    (recipe_ingredient(data, i as int), tokens.key@, amount),
                ));
            }
        }
        i = i + 1;
        proof {
            assert(debits_view(debits@) =~= planned_debits(accounts@, data, i as int));
        }
    }
    proof {
        assert(balances@ =~= slot_balances(accounts@, data));
        assert(config.amounts@ =~= recipe_amounts(data));
    }
    proof {
        assert(balances_cover(config, balances@) <==> amounts_covered(recipe_amounts(data), balances@));
    }
    let item = craft(&config, &args.resource, &mut balances)?;
    Ok(CraftPlan { debits, item })
}

/// Whether `info` is the signer and the fixed initializer identity.
pub open spec fn is_initializer(info: &AccountView) -> bool {
    info.is_signer && info.key@ == INITIALIZER_ADDRESS@
}

/// Errors unless the signer is the fixed initializer identity.
fn check_initializer(signer: &AccountView) -> (r: Result<(), ProgramError>)
    ensures
        r is Ok <==> signer.key@ == INITIALIZER_ADDRESS@,
        r is Err ==> r == Err::<(), ProgramError>(ProgramError::Custom(ForgeError::AuthFailed.spec_code())),
{
    if !signer.key.same_as(&Address { bytes: INITIALIZER_ADDRESS }) {
        return Err(ProgramError::from(ForgeError::AuthFailed));
    }
    Ok(())
}

/// Creates the treasury. Accounts: signer, treasury, system program. Only
/// the initializer may do so, once, at the treasury's derived address.
pub fn process_initialize(accounts: &Vec<AccountView>, args: &InitializeArgs) -> (r: Result<NewRecord, ProgramError>)
    ensures
        r is Ok <==> accounts@.len() == 3 && is_initializer(&accounts@[0])
            && load_uninitialized_pda_result(&accounts@[1], treasury_seeds(), args.treasury_bump, PROGRAM_ID@) is Ok,
        accounts@.len() == 3 && accounts@[0].is_signer && accounts@[0].key@ != INITIALIZER_ADDRESS@
            ==> r == Err::<NewRecord, ProgramError>(ProgramError::Custom(ForgeError::AuthFailed.spec_code())),
        r is Ok ==> r->Ok_0.address@ == accounts@[1].key@ && r->Ok_0.space == TREASURY_LEN
            && r->Ok_0.data@ == crate::state::header(101),
{
    if accounts.len() != 3 {
        return Err(ProgramError::NotEnoughAccountKeys);
    }
    let signer = &accounts[0];
    let treasury_info = &accounts[1];
    load_signer(signer)?;
    check_initializer(signer)?;
    load_uninitialized_pda(treasury_info, &treasury_seed_list(), args.treasury_bump, &Address { bytes: PROGRAM_ID })?;
    let data = Treasury {}.to_bytes();
    Ok(NewRecord { address: treasury_info.key, space: TREASURY_LEN, data })
}

/// The two legs of the administrative proxy transfer: signer to collection
/// authority, then collection authority to the destination.
#[derive(Debug, Clone, Copy)]
pub struct VerifyPlan {
    pub deposit: u64,
    pub payout: u64,
}

/// Moves a fixed small value through the collection authority. Accounts:
/// signer, collection authority, destination, system program. `min_rent` is
/// the rent-exempt minimum of an empty account.
pub fn process_verify(accounts: &Vec<AccountView>, args: &VerifyArgs, min_rent: u64) -> (r: Result<VerifyPlan, ProgramError>)
    requires
        min_rent <= u64::MAX - VERIFY_TRANSFER_LAMPORTS,
    ensures
        r is Ok <==> accounts@.len() == 4 && is_initializer(&accounts@[0])
            && derives_to(collection_authority_seeds(), PROGRAM_ID@, accounts@[1].key@, args.collection_authority_bump),
        r is Ok ==> r->Ok_0.deposit == VERIFY_TRANSFER_LAMPORTS + min_rent && r->Ok_0.payout == VERIFY_TRANSFER_LAMPORTS,
{
    if accounts.len() != 4 {
        return Err(ProgramError::NotEnoughAccountKeys);
    }
    let signer = &accounts[0];
    load_signer(signer)?;
    load_collection_authority(&accounts[1], &collection_authority_seed_list(), args.collection_authority_bump, &Address { bytes: PROGRAM_ID })?;
    check_initializer(signer)?;
    Ok(VerifyPlan { deposit: VERIFY_TRANSFER_LAMPORTS + min_rent, payout: VERIFY_TRANSFER_LAMPORTS })
}

/// A recipe record and the collection asset created beside it.
#[derive(Debug)]
pub struct NewPlan {
    pub config: NewRecord,
    pub collection: ItemTemplate,
}

/// Whether slot `i` of a recipe being defined is acceptable: an inert slot
/// names the sentinel; a slot naming an ingredient comes with its mint.
pub open spec fn new_slot_ok(accounts: Seq<AccountView>, args: &NewV1Args, i: int) -> bool {
    &&& args.amounts[i] == 0 ==> args.ingredients[i]@ == SYSTEM_PROGRAM_ID@
    &&& args.ingredients[i]@ != SYSTEM_PROGRAM_ID@ ==> accounts.len() > 8 + i
        && load_mint_result(&accounts[8 + i], args.ingredients[i]@, false) is Ok
}

pub open spec fn new_accounts_ok(accounts: Seq<AccountView>, args: &NewV1Args) -> bool {
    &&& accounts.len() >= 8
    &&& is_initializer(&accounts[0])
    &&& derives_to(collection_authority_seeds(), PROGRAM_ID@, accounts[2].key@, args.collection_authority_bump)
    &&& load_uninitialized_pda_result(&accounts[3], config_seeds(accounts[1].key@), args.config_bump, PROGRAM_ID@) is Ok
    &&& program_ok(&accounts[4], MPL_CORE_PROGRAM_ID@)
    &&& program_ok(&accounts[5], TOKEN_PROGRAM_ID@)
    &&& program_ok(&accounts[6], crate::consts::ASSOCIATED_TOKEN_PROGRAM_ID@)
    &&& program_ok(&accounts[7], SYSTEM_PROGRAM_ID@)
    &&& new_slot_ok(accounts, args, 0)
    &&& new_slot_ok(accounts, args, 1)
    &&& new_slot_ok(accounts, args, 2)
}

/// Attributes of a new collection.
pub open spec fn collection_attributes(multiplier: u64, durability: u64) -> Seq<(Seq<char>, Seq<char>)> {
    seq![
        ("multiplier"@, decimal(multiplier as nat)),
        ("durability"@, decimal(durability as nat)),
        ("rarity"@, "common"@),
        ("resource"@, "coal"@),
    ]
}

/// Defines the recipe of a collection and creates the collection. Accounts:
/// signer, collection, collection authority, recipe record, asset program,
/// token program, associated token program, system program, then the mint
/// of each slot that names an ingredient. Only the initializer may define a
/// recipe, once per collection.
pub fn process_new(accounts: &Vec<AccountView>, args: &NewV1Args) -> (r: Result<NewPlan, ProgramError>)
    ensures
        r is Ok <==> new_accounts_ok(accounts@, args),
        accounts@.len() >= 8 && accounts@[0].is_signer && accounts@[0].key@ != INITIALIZER_ADDRESS@ ==> r is Err,
        r is Ok ==> ({
            let p = r->Ok_0;
            &&& p.config.address@ == accounts@[3].key@
            &&& p.config.space == CONFIG_LEN
            &&& p.config.data@ == (Config { amounts: args.amounts, ingredients: args.ingredients }).spec_bytes()
            &&& p.collection.name@ == args.name@
            &&& p.collection.uri@ == args.uri@
            &&& attributes_view(p.collection.attributes@) == collection_attributes(args.multiplier, args.durability)
        }),
{
    if accounts.len() < 8 {
        return Err(ProgramError::NotEnoughAccountKeys);
    }
    let signer = &accounts[0];
    let collection_info = &accounts[1];
    let config_info = &accounts[3];
    load_signer(signer)?;
    load_collection_authority(&accounts[2], &collection_authority_seed_list(), args.collection_authority_bump, &Address { bytes: PROGRAM_ID })?;
    load_uninitialized_pda(config_info, &config_seed_list(&collection_info.key), args.config_bump, &Address { bytes: PROGRAM_ID })?;
    load_program(&accounts[4], &Address { bytes: MPL_CORE_PROGRAM_ID })?;
    load_program(&accounts[5], &Address { bytes: TOKEN_PROGRAM_ID })?;
    load_program(&accounts[6], &Address { bytes: crate::consts::ASSOCIATED_TOKEN_PROGRAM_ID })?;
    load_program(&accounts[7], &Address { bytes: SYSTEM_PROGRAM_ID })?;
    check_initializer(signer)?;
    let sentinel = Address::system_program();
    let mut i: usize = 0;
    while i < 3
        invariant
            i <= 3,
            accounts@.len() >= 8,
            sentinel@ == SYSTEM_PROGRAM_ID@,
            forall|j: int| 0 <= j < i ==> new_slot_ok(accounts@, args, j),
        decreases 3 - i,
    {
        let ingredient = &args.ingredients[i];
        let is_sentinel = ingredient.same_as(&sentinel);
        if args.amounts[i] == 0 && !is_sentinel {
            return Err(ProgramError::InvalidArgument);
        }
        if !is_sentinel {
            if accounts.len() <= 8 + i {
                return Err(ProgramError::NotEnoughAccountKeys);
            }
            load_mint(&accounts[8 + i], ingredient, false)?;
        }
        i = i + 1;
    }
    let config = Config { amounts: args.amounts, ingredients: args.ingredients };
    let data = config.to_bytes();
    let attributes = vec![
        Attribute::new("multiplier", u64_to_decimal(args.multiplier)),
        Attribute::new("durability", u64_to_decimal(args.durability)),
        Attribute::new("rarity", String::from_str("common")),
        Attribute::new("resource", String::from_str("coal")),
    ];
    proof {
        assert(attributes_view(attributes@) =~= collection_attributes(args.multiplier, args.durability));
    }
    Ok(NewPlan {
        config: NewRecord { address: config_info.key, space: CONFIG_LEN, data },
        collection: ItemTemplate { name: args.name.clone(), uri: args.uri.clone(), attributes },
    })
}

/// Length of the history entry that feeds the entropy: a tick and a 32-byte hash.
pub const HISTORY_ENTRY_LEN: usize = 40;

/// The most recent history entry at the front of the history sysvar's data.
pub open spec fn history_entry(data: Seq<u8>) -> Seq<u8> {
    data.subrange(0, HISTORY_ENTRY_LEN as int)
}

fn read_history_entry(info: &AccountView) -> (r: Result<Vec<u8>, ProgramError>)
    ensures
        r is Ok <==> info.data@.len() >= HISTORY_ENTRY_LEN,
        r is Ok ==> r->Ok_0@ == history_entry(info.data@),
        r is Err ==> r == Err::<Vec<u8>, ProgramError>(ProgramError::InvalidAccountData),
{
    if info.data.len() < HISTORY_ENTRY_LEN {
        return Err(ProgramError::InvalidAccountData);
    }
    let mut out: Vec<u8> = Vec::new();
    let mut i: usize = 0;
    while i < HISTORY_ENTRY_LEN
        invariant
            i <= HISTORY_ENTRY_LEN,
            info.data@.len() >= HISTORY_ENTRY_LEN,
            out@ == info.data@.subrange(0, i as int),
        decreases HISTORY_ENTRY_LEN - i,
    {
        out.push(info.data[i]);
        i = i + 1;
        proof {
            assert(out@ =~= info.data@.subrange(0, i as int));
        }
    }
    Ok(out)
}

/// A session about to be opened, and the durability of the asset, which is
/// the amount of the scarce resource to burn.
#[derive(Debug)]
pub struct InitEnhancePlan {
    pub session: Enhancer,
    pub record: NewRecord,
    pub burn_durability: String,
}

pub open spec fn init_enhance_accounts_ok(accounts: Seq<AccountView>, args: &InitializeEnhanceArgs, asset: &AssetView) -> bool {
    &&& accounts.len() == 8
    &&& accounts[0].is_signer
    &&& load_mint_result(&accounts[3], CHROMIUM_MINT_ADDRESS@, true) is Ok
    &&& load_token_account_result(&accounts[4], Some(accounts[0].key@), accounts[3].key@, true) is Ok
    &&& load_uninitialized_pda_result(
        &accounts[2],
        enhancer_seeds(accounts[0].key@, accounts[1].key@),
        args.enhancer_bump,
        PROGRAM_ID@,
    ) is Ok
    &&& program_ok(&accounts[5], TOKEN_PROGRAM_ID@)
    &&& accounts[6].owner@ == crate::consts::SYSVAR_PROGRAM_ID@
    &&& accounts[6].key@ == SLOT_HASHES_SYSVAR_ID@
    &&& load_asset_result(&accounts[1], asset) is Ok
    &&& accounts[6].data@.len() >= HISTORY_ENTRY_LEN
}

/// Opens an enhancement session for the signer and an asset at tick
/// `current_slot`. Accounts: signer, asset, session record, scarce-resource
/// mint, the signer's token account of it, token program, history sysvar,
/// system program.
/// The session may settle only after the commit delay and commits to the
/// digest of the most recent history entry.
pub fn process_initialize_enhance(
    accounts: &Vec<AccountView>,
    args: &InitializeEnhanceArgs,
    asset: &AssetView,
    current_slot: u64,
) -> (r: Result<InitEnhancePlan, ProgramError>)
    requires
        current_slot + ENHANCER_TARGET_SLOT <= u64::MAX,
    ensures
        r is Ok <==> init_enhance_accounts_ok(accounts@, args, asset),
        r is Ok ==> ({
            let p = r->Ok_0;
            &&& opened_session(accounts@[0].key@, current_slot, history_entry(accounts@[6].data@), p.session)
            &&& p.record.address@ == accounts@[2].key@
            &&& p.record.space == ENHANCER_LEN
            &&& p.record.data@ == p.session.spec_bytes()
            &&& p.burn_durability@ == load_asset_result(&accounts@[1], asset)->Ok_0.0
        }),
{
    if accounts.len() != 8 {
        return Err(ProgramError::NotEnoughAccountKeys);
    }
    let signer = &accounts[0];
    let asset_info = &accounts[1];
    let enhancer_info = &accounts[2];
    let mint_info = &accounts[3];
    let history = &accounts[6];
    load_signer(signer)?;
    load_mint(mint_info, &Address { bytes: CHROMIUM_MINT_ADDRESS }, true)?;
    load_token_account(&accounts[4], Some(&signer.key), &mint_info.key, true)?;
    load_uninitialized_pda(
        enhancer_info,
        &enhancer_seed_list(&signer.key, &asset_info.key),
        args.enhancer_bump,
        &Address { bytes: PROGRAM_ID },
    )?;
    load_program(&accounts[5], &Address { bytes: TOKEN_PROGRAM_ID })?;
    load_sysvar(history, &Address { bytes: SLOT_HASHES_SYSVAR_ID })?;
    let (durability, _multiplier, _resource) = load_asset(asset_info, asset)?;
    let entry = read_history_entry(history)?;
    let session = open_session(&signer.key, current_slot, &entry);
    let data = session.to_bytes();
    Ok(InitEnhancePlan {
        session,
        record: NewRecord { address: enhancer_info.key, space: ENHANCER_LEN, data },
        burn_durability: durability,
    })
}

/// An enhancement ready to apply: mint the enhanced item, burn the old one,
/// then close the session and hand `refund` to the signer.
#[derive(Debug)]
pub struct EnhancePlan {
    pub settlement: Settlement,
    pub refund: u64,
}

pub open spec fn enhance_accounts_ok(accounts: Seq<AccountView>, args: &EnhanceArgs, asset: &AssetView) -> bool {
    &&& accounts.len() == 9
    &&& accounts[0].is_signer
    &&& load_enhance_result(&accounts[5], accounts[0].key@, true) is Ok
    &&& derives_to(
        enhancer_seeds(accounts[0].key@, accounts[2].key@),
        PROGRAM_ID@,
        accounts[5].key@,
        args.enhancer_bump,
    )
    &&& accounts[8].owner@ == crate::consts::SYSVAR_PROGRAM_ID@
    &&& accounts[8].key@ == SLOT_HASHES_SYSVAR_ID@
    &&& derives_to(collection_authority_seeds(), PROGRAM_ID@, accounts[4].key@, args.collection_authority_bump)
    &&& program_ok(&accounts[6], MPL_CORE_PROGRAM_ID@)
    &&& asset.attributes is Some
    &&& accounts[8].data@.len() >= HISTORY_ENTRY_LEN
}

/// The target tick stored in a session record.
pub open spec fn session_slot(data: Seq<u8>) -> u64 {
    u64_at(data, 40)
}

/// The hash committed in a session record.
pub open spec fn session_hash(data: Seq<u8>) -> Seq<u8> {
    data.subrange(48, 80)
}

/// Settles the signer's session on an asset at tick `current_slot`.
/// Accounts: signer, new asset, old asset, collection, collection authority,
/// session record, asset program, system program, history sysvar. Before
/// the target tick has passed it fails with the slot error and changes
/// nothing; afterwards the multiplier is drawn from the digest of the
/// committed hash and the current history entry, decayed for lateness.
pub fn process_enhance(
    accounts: &Vec<AccountView>,
    args: &EnhanceArgs,
    asset: &AssetView,
    current_slot: u64,
) -> (r: Result<EnhancePlan, ProgramError>)
    ensures
        !enhance_accounts_ok(accounts@, args, asset) ==> r is Err,
        enhance_accounts_ok(accounts@, args, asset) ==> {
            &&& current_slot <= session_slot(accounts@[5].data@) ==> r == Err::<EnhancePlan, ProgramError>(
                ProgramError::Custom(ForgeError::SlotTooEarly.spec_code()),
            )
            &&& settlement_matches(
                match r {
                    Ok(p) => Ok(p.settlement),
                    Err(e) => Err(e),
                },
                settlement_outcome(
                    keccak_digest(reveal_input(session_hash(accounts@[5].data@), history_entry(accounts@[8].data@))),
                    session_slot(accounts@[5].data@),
                    current_slot,
                    attributes_view(asset.attributes->Some_0@),
                ),
            )
        },
        r is Ok ==> r->Ok_0.refund == accounts@[5].lamports,
{
    if accounts.len() != 9 {
        return Err(ProgramError::NotEnoughAccountKeys);
    }
    let signer = &accounts[0];
    let enhancer_info = &accounts[5];
    let history = &accounts[8];
    load_signer(signer)?;
    load_enhance(enhancer_info, &signer.key, true)?;
    if !crate::address::verify_program_address(
        &enhancer_info.key,
        &enhancer_seed_list(&signer.key, &accounts[2].key),
        args.enhancer_bump,
        &Address { bytes: PROGRAM_ID },
    ) {
        return Err(ProgramError::InvalidSeeds);
    }
    load_sysvar(history, &Address { bytes: SLOT_HASHES_SYSVAR_ID })?;
    load_collection_authority(&accounts[4], &collection_authority_seed_list(), args.collection_authority_bump, &Address { bytes: PROGRAM_ID })?;
    load_program(&accounts[6], &Address { bytes: MPL_CORE_PROGRAM_ID })?;
    let attributes = match &asset.attributes {
        Some(a) => a,
        None => return Err(ProgramError::InvalidAccountData),
    };
    let entry = read_history_entry(history)?;
    let session = Enhancer::try_from_bytes(enhancer_info.data.as_slice())?;
    let settlement = match settle(&session, &entry, current_slot, attributes) {
        Ok(s) => s,
        Err(e) => return Err(e),
    };
    Ok(EnhancePlan { settlement, refund: enhancer_info.lamports })
}

/// Closes a settled session: its data is released and its lamports go to
/// the signer.
pub fn close_session(signer: &mut AccountView, session: &mut AccountView)
    requires
        old(signer).lamports + old(session).lamports <= u64::MAX,
    ensures
        final(session).data@.len() == 0,
        final(session).lamports == 0,
        final(session).key == old(session).key,
        final(session).owner == old(session).owner,
        final(signer).lamports == old(signer).lamports + old(session).lamports,
        final(signer).key == old(signer).key,
        final(signer).data@ == old(signer).data@,
{
    signer.lamports = signer.lamports + session.lamports;
    session.lamports = 0;
    session.data = Vec::new();
}

/// A session cannot be settled twice: once its record is closed, no
/// settlement's account checks pass for it.
pub proof fn lemma_closed_session_cannot_settle(accounts: Seq<AccountView>, args: &EnhanceArgs, asset: &AssetView)
    requires
        accounts.len() == 9,
        accounts[5].data@.len() == 0,
    ensures
        !enhance_accounts_ok(accounts, args, asset),
{
}

/// While a session is live, opening another for the same authority and
/// asset fails: its address is occupied by the session record.
pub proof fn lemma_live_session_blocks_open(
    accounts: Seq<AccountView>,
    args: &InitializeEnhanceArgs,
    asset: &AssetView,
    live: Enhancer,
)
    requires
        accounts.len() == 8,
        accounts[2].data@ == live.spec_bytes(),
    ensures
        !init_enhance_accounts_ok(accounts, args, asset),
{
    crate::state::lemma_enhancer_round_trip(live);
}

/// Checks that an instruction is addressed to this program and decodes it.
pub fn process_instruction(program_id: &Address, data: &[u8]) -> (r: Result<ForgeInstruction, ProgramError>)
    ensures
        program_id@ != PROGRAM_ID@ ==> r == Err::<ForgeInstruction, ProgramError>(ProgramError::IncorrectProgramId),
        r is Ok ==> program_id@ == PROGRAM_ID@ && r->Ok_0.spec_bytes() == data@,
        program_id@ == PROGRAM_ID@ ==> forall|i: ForgeInstruction|
            #[trigger] i.spec_bytes() == data@ && i.encodable() ==> r is Ok,
        program_id@ == PROGRAM_ID@ && r is Err ==> r == Err::<ForgeInstruction, ProgramError>(ProgramError::InvalidInstructionData),
{
    if !program_id.same_as(&Address { bytes: PROGRAM_ID }) {
        return Err(ProgramError::IncorrectProgramId);
    }
    ForgeInstruction::try_from_slice(data)
}

} // verus!
