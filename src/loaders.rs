use crate::address::{derives_to, find_program_address, program_address, verify_program_address, Address};
use crate::consts::{
    ASSOCIATED_TOKEN_PROGRAM_ID, COLLECTION_AUTHORITY_SEED, CONFIG_SEED, ENHANCER_SEED, PROGRAM_ID, SYSTEM_PROGRAM_ID, SYSVAR_PROGRAM_ID, TOKEN_PROGRAM_ID, TREASURY_SEED,
};
use crate::error::ProgramError;
use crate::state::Enhancer;
use crate::token::{check_mint_data, mint_unpack, token_account_unpack, TokenAccount};
use vstd::prelude::*;
use vstd::slice::slice_to_vec;

verus! {

/// What an instruction sees of one account handed to it.
#[derive(Debug)]
pub struct AccountView {
    pub key: Address,
    pub owner: Address,
    pub lamports: u64,
    pub data: Vec<u8>,
    pub is_signer: bool,
    pub is_writable: bool,
    pub executable: bool,
}

pub open spec fn writable_ok(info: &AccountView, is_writable: bool) -> bool {
    !is_writable || info.is_writable
}

/// Seeds of a recipe record's address.
pub open spec fn config_seeds(collection: Seq<u8>) -> Seq<Seq<u8>> {
    seq![CONFIG_SEED@, collection]
}

/// Seeds of an enhancement session's address.
pub open spec fn enhancer_seeds(authority: Seq<u8>, asset: Seq<u8>) -> Seq<Seq<u8>> {
    seq![ENHANCER_SEED@, authority, asset]
}

/// Seeds of the treasury's address.
pub open spec fn treasury_seeds() -> Seq<Seq<u8>> {
    seq![TREASURY_SEED@]
}

/// Seeds of the associated token account of `wallet` for `mint`.
pub open spec fn associated_token_seeds(wallet: Seq<u8>, mint: Seq<u8>) -> Seq<Seq<u8>> {
    seq![wallet, TOKEN_PROGRAM_ID@, mint]
}

proof fn lemma_bytes_deep_view(v: Vec<u8>)
    ensures
        v.deep_view() == v@,
{
    assert(v.deep_view() =~= v@);
}

proof fn lemma_seed_list_view(r: Vec<Vec<u8>>)
    ensures
        r.deep_view().len() == r@.len(),
        forall|i: int| 0 <= i < r@.len() ==> #[trigger] r.deep_view()[i] == r@[i]@,
{
    assert forall|i: int| 0 <= i < r@.len() implies #[trigger] r.deep_view()[i] == r@[i]@ by {
        lemma_bytes_deep_view(r@[i]);
    }
}

pub fn config_seed_list(collection: &Address) -> (r: Vec<Vec<u8>>)
    ensures
        r.deep_view() == config_seeds(collection@),
{
    let r = vec![slice_to_vec(CONFIG_SEED.as_slice()), collection.to_vec()];
    proof {
        lemma_seed_list_view(r);
        assert(r.deep_view() =~= config_seeds(collection@));
    }
    r
}

pub fn enhancer_seed_list(authority: &Address, asset: &Address) -> (r: Vec<Vec<u8>>)
    ensures
        r.deep_view() == enhancer_seeds(authority@, asset@),
{
    let r = vec![slice_to_vec(ENHANCER_SEED.as_slice()), authority.to_vec(), asset.to_vec()];
    proof {
        lemma_seed_list_view(r);
        assert(r.deep_view() =~= enhancer_seeds(authority@, asset@));
    }
    r
}

pub fn treasury_seed_list() -> (r: Vec<Vec<u8>>)
    ensures
        r.deep_view() == treasury_seeds(),
{
    let r = vec![slice_to_vec(TREASURY_SEED.as_slice())];
    proof {
        lemma_seed_list_view(r);
        assert(r.deep_view() =~= treasury_seeds());
    }
    r
}

/// Seeds of the collection authority's address.
pub open spec fn collection_authority_seeds() -> Seq<Seq<u8>> {
    seq![COLLECTION_AUTHORITY_SEED@]
}

pub fn collection_authority_seed_list() -> (r: Vec<Vec<u8>>)
    ensures
        r.deep_view() == collection_authority_seeds(),
{
    let s = slice_to_vec(COLLECTION_AUTHORITY_SEED.as_slice());
    let r = vec![s];
    proof {
        lemma_seed_list_view(r);
        assert(r.deep_view() =~= collection_authority_seeds());
    }
    r
}

/// The treasury's address, derived under the program.
pub open spec fn treasury_address() -> Option<Seq<u8>> {
    match program_address(treasury_seeds(), PROGRAM_ID@) {
        Some((a, _)) => Some(a),
        None => None,
    }
}

/// The associated token account of `wallet` for `mint`: the address derived
/// from the wallet, the token program and the mint under the associated
/// token program.
pub open spec fn associated_token_address(wallet: Seq<u8>, mint: Seq<u8>) -> Option<Seq<u8>> {
    match program_address(associated_token_seeds(wallet, mint), ASSOCIATED_TOKEN_PROGRAM_ID@) {
        Some((a, _)) => Some(a),
        None => None,
    }
}

/// Derives the associated token account of `wallet` for `mint`.
pub fn get_associated_token_address(wallet: &Address, mint: &Address) -> (r: Option<Address>)
    ensures
        match r {
            Some(a) => associated_token_address(wallet@, mint@) == Some(a@),
            None => associated_token_address(wallet@, mint@) is None,
        },
{
    let seeds = vec![wallet.to_vec(), slice_to_vec(TOKEN_PROGRAM_ID.as_slice()), mint.to_vec()];
    proof {
        lemma_seed_list_view(seeds);
        assert(seeds.deep_view() =~= associated_token_seeds(wallet@, mint@));
    }
    match find_program_address(&seeds, &Address { bytes: ASSOCIATED_TOKEN_PROGRAM_ID }) {
        Some((a, _)) => Some(a),
        None => None,
    }
}

/// Derives the treasury's address and bump.
pub fn treasury_address_and_bump() -> (r: Option<(Address, u8)>)
    ensures
        match r {
            Some((a, b)) => program_address(treasury_seeds(), PROGRAM_ID@) == Some((a@, b)),
            None => program_address(treasury_seeds(), PROGRAM_ID@) is None,
        },
{
    find_program_address(&treasury_seed_list(), &Address { bytes: PROGRAM_ID })
}

/// Errors unless the account signed.
pub fn load_signer(info: &AccountView) -> (r: Result<(), ProgramError>)
    ensures
        r == if info.is_signer {
            Ok(())
        } else {
            Err(ProgramError::MissingRequiredSignature)
        },
{
    if !info.is_signer {
        return Err(ProgramError::MissingRequiredSignature);
    }
    Ok(())
}

pub open spec fn load_mint_result(info: &AccountView, address: Seq<u8>, is_writable: bool) -> Result<(), ProgramError> {
    if info.owner@ != TOKEN_PROGRAM_ID@ {
        Err(ProgramError::InvalidAccountOwner)
    } else if info.key@ != address {
        Err(ProgramError::InvalidSeeds)
    } else if info.data@.len() == 0 {
        Err(ProgramError::UninitializedAccount)
    } else if mint_unpack(info.data@) is Err {
        mint_unpack(info.data@)
    } else if !writable_ok(info, is_writable) {
        Err(ProgramError::InvalidAccountData)
    } else {
        Ok(())
    }
}

/// Errors unless the account is the initialized token mint at `address`,
/// owned by the token program, and writable when asked.
pub fn load_mint(info: &AccountView, address: &Address, is_writable: bool) -> (r: Result<(), ProgramError>)
    ensures
        r == load_mint_result(info, address@, is_writable),
{
    if !info.owner.same_as(&Address { bytes: TOKEN_PROGRAM_ID }) {
        return Err(ProgramError::InvalidAccountOwner);
    }
    if !info.key.same_as(address) {
        return Err(ProgramError::InvalidSeeds);
    }
    if info.data.len() == 0 {
        return Err(ProgramError::UninitializedAccount);
    }
    check_mint_data(info.data.as_slice())?;
    if is_writable && !info.is_writable {
        return Err(ProgramError::InvalidAccountData);
    }
    Ok(())
}

pub open spec fn load_token_account_result(
    info: &AccountView,
    owner: Option<Seq<u8>>,
    mint: Seq<u8>,
    is_writable: bool,
) -> Result<(Seq<u8>, Seq<u8>, u64), ProgramError> {
    if info.owner@ != TOKEN_PROGRAM_ID@ {
        Err(ProgramError::InvalidAccountOwner)
    } else if info.data@.len() == 0 {
        Err(ProgramError::UninitializedAccount)
    } else {
        match token_account_unpack(info.data@) {
            Err(e) => Err(e),
            Ok((m, o, n)) => {
                if m != mint {
                    Err(ProgramError::InvalidAccountData)
                } else if owner is Some && o != owner->0 {
                    Err(ProgramError::InvalidAccountData)
                } else if !writable_ok(info, is_writable) {
                    Err(ProgramError::InvalidAccountData)
                } else {
                    Ok((m, o, n))
                }
            },
        }
    }
}

pub open spec fn token_result_matches(
    r: Result<TokenAccount, ProgramError>,
    s: Result<(Seq<u8>, Seq<u8>, u64), ProgramError>,
) -> bool {
    match (r, s) {
        (Ok(a), Ok((m, o, n))) => a.mint@ == m && a.owner@ == o && a.amount == n,
        (Err(e), Err(f)) => e == f,
        _ => false,
    }
}

pub open spec fn opt_view(a: Option<&Address>) -> Option<Seq<u8>> {
    match a {
        Some(x) => Some(x@),
        None => None,
    }
}

/// Errors unless the account is an initialized token account of `mint`,
/// held by `owner` when one is given, and writable when asked; returns what
/// it holds.
pub fn load_token_account(
    info: &AccountView,
    owner: Option<&Address>,
    mint: &Address,
    is_writable: bool,
) -> (r: Result<TokenAccount, ProgramError>)
    ensures
        token_result_matches(r, load_token_account_result(info, opt_view(owner), mint@, is_writable)),
{
    if !info.owner.same_as(&Address { bytes: TOKEN_PROGRAM_ID }) {
        return Err(ProgramError::InvalidAccountOwner);
    }
    if info.data.len() == 0 {
        return Err(ProgramError::UninitializedAccount);
    }
    let account = TokenAccount::unpack(info.data.as_slice())?;
    if !account.mint.same_as(mint) {
        return Err(ProgramError::InvalidAccountData);
    }
    match owner {
        Some(o) => {
            if !account.owner.same_as(o) {
                return Err(ProgramError::InvalidAccountData);
            }
        },
        None => {},
    }
    if is_writable && !info.is_writable {
        return Err(ProgramError::InvalidAccountData);
    }
    Ok(account)
}

/// Errors unless the account is the treasury's associated token account for
/// `mint`, and a valid token account held by the treasury.
pub fn load_treasury_token_account(info: &AccountView, mint: &Address, is_writable: bool) -> (r: Result<TokenAccount, ProgramError>)
    ensures
        match (treasury_address(), r) {
            (Some(t), _) => match associated_token_address(t, mint@) {
                Some(ata) => if info.key@ != ata {
                    r == Err::<TokenAccount, ProgramError>(ProgramError::InvalidSeeds)
                } else {
                    token_result_matches(r, load_token_account_result(info, Some(t), mint@, is_writable))
                },
                None => r == Err::<TokenAccount, ProgramError>(ProgramError::InvalidSeeds),
            },
            (None, _) => r == Err::<TokenAccount, ProgramError>(ProgramError::InvalidSeeds),
        },
{
    let treasury = match treasury_address_and_bump() {
        Some((a, _)) => a,
        None => return Err(ProgramError::InvalidSeeds),
    };
    let ata = match get_associated_token_address(&treasury, mint) {
        Some(a) => a,
        None => return Err(ProgramError::InvalidSeeds),
    };
    if !info.key.same_as(&ata) {
        return Err(ProgramError::InvalidSeeds);
    }
    load_token_account(info, Some(&treasury), mint, is_writable)
}

/// Errors unless the account's key and `bump` are what the runtime derives
/// from `seeds` under `program_id`.
pub fn load_collection_authority(
    info: &AccountView,
    seeds: &Vec<Vec<u8>>,
    bump: u8,
    program_id: &Address,
) -> (r: Result<(), ProgramError>)
    ensures
        r == if derives_to(seeds.deep_view(), program_id@, info.key@, bump) {
            Ok(())
        } else {
            Err(ProgramError::InvalidSeeds)
        },
{
    if !verify_program_address(&info.key, seeds, bump, program_id) {
        return Err(ProgramError::InvalidSeeds);
    }
    Ok(())
}

pub open spec fn load_system_account_result(info: &AccountView, is_writable: bool) -> Result<(), ProgramError> {
    if info.owner@ != SYSTEM_PROGRAM_ID@ {
        Err(ProgramError::InvalidAccountOwner)
    } else if info.data@.len() != 0 {
        Err(ProgramError::AccountAlreadyInitialized)
    } else if !writable_ok(info, is_writable) {
        Err(ProgramError::InvalidAccountData)
    } else {
        Ok(())
    }
}

/// Errors unless the account is unallocated: owned by the system program,
/// with no data, and writable when asked.
pub fn load_system_account(info: &AccountView, is_writable: bool) -> (r: Result<(), ProgramError>)
    ensures
        r == load_system_account_result(info, is_writable),
{
    if !info.owner.same_as(&Address { bytes: SYSTEM_PROGRAM_ID }) {
        return Err(ProgramError::InvalidAccountOwner);
    }
    if info.data.len() != 0 {
        return Err(ProgramError::AccountAlreadyInitialized);
    }
    if is_writable && !info.is_writable {
        return Err(ProgramError::InvalidAccountData);
    }
    Ok(())
}

pub open spec fn load_uninitialized_pda_result(
    info: &AccountView,
    seeds: Seq<Seq<u8>>,
    bump: u8,
    program_id: Seq<u8>,
) -> Result<(), ProgramError> {
    if !derives_to(seeds, program_id, info.key@, bump) {
        Err(ProgramError::InvalidSeeds)
    } else {
        load_system_account_result(info, true)
    }
}

/// Errors unless the account sits at the address derived from `seeds` with
/// `bump`, and is still unallocated and writable.
pub fn load_uninitialized_pda(
    info: &AccountView,
    seeds: &Vec<Vec<u8>>,
    bump: u8,
    program_id: &Address,
) -> (r: Result<(), ProgramError>)
    ensures
        r == load_uninitialized_pda_result(info, seeds.deep_view(), bump, program_id@),
{
    if !verify_program_address(&info.key, seeds, bump, program_id) {
        return Err(ProgramError::InvalidSeeds);
    }
    load_system_account(info, true)
}

/// Errors unless the account is the executable program at `key`.
pub fn load_program(info: &AccountView, key: &Address) -> (r: Result<(), ProgramError>)
    ensures
        r == if info.key@ != key@ {
            Err(ProgramError::IncorrectProgramId)
        } else if !info.executable {
            Err(ProgramError::InvalidAccountData)
        } else {
            Ok(())
        },
{
    if !info.key.same_as(key) {
        return Err(ProgramError::IncorrectProgramId);
    }
    if !info.executable {
        return Err(ProgramError::InvalidAccountData);
    }
    Ok(())
}

pub open spec fn load_config_result(info: &AccountView, collection: Seq<u8>, is_writable: bool) -> Result<(), ProgramError> {
    if info.owner@ != PROGRAM_ID@ {
        Err(ProgramError::InvalidAccountOwner)
    } else if !(match program_address(config_seeds(collection), PROGRAM_ID@) {
        Some((a, _)) => a == info.key@,
        None => false,
    }) {
        Err(ProgramError::InvalidSeeds)
    } else if info.data@.len() == 0 {
        Err(ProgramError::UninitializedAccount)
    } else if info.data@[0] != 100 {
        Err(ProgramError::InvalidAccountData)
    } else if !writable_ok(info, is_writable) {
        Err(ProgramError::InvalidAccountData)
    } else {
        Ok(())
    }
}

/// Errors unless the account is the recipe record of `collection`: owned by
/// the program, at the derived address, and tagged as a recipe.
pub fn load_config(info: &AccountView, collection: &Address, is_writable: bool) -> (r: Result<(), ProgramError>)
    ensures
        r == load_config_result(info, collection@, is_writable),
{
    if !info.owner.same_as(&Address { bytes: PROGRAM_ID }) {
        return Err(ProgramError::InvalidAccountOwner);
    }
    match find_program_address(&config_seed_list(collection), &Address { bytes: PROGRAM_ID }) {
        Some((a, _)) => {
            if !info.key.same_as(&a) {
                return Err(ProgramError::InvalidSeeds);
            }
        },
        None => return Err(ProgramError::InvalidSeeds),
    }
    if info.data.len() == 0 {
        return Err(ProgramError::UninitializedAccount);
    }
    if info.data[0] != 100 {
        return Err(ProgramError::InvalidAccountData);
    }
    if is_writable && !info.is_writable {
        return Err(ProgramError::InvalidAccountData);
    }
    Ok(())
}

pub open spec fn load_treasury_result(info: &AccountView, is_writable: bool) -> Result<(), ProgramError> {
    if info.owner@ != PROGRAM_ID@ {
        Err(ProgramError::InvalidAccountOwner)
    } else if treasury_address() != Some(info.key@) {
        Err(ProgramError::InvalidSeeds)
    } else if info.data@.len() == 0 {
        Err(ProgramError::UninitializedAccount)
    } else if info.data@[0] != 101 {
        Err(ProgramError::InvalidAccountData)
    } else if !writable_ok(info, is_writable) {
        Err(ProgramError::InvalidAccountData)
    } else {
        Ok(())
    }
}

/// Errors unless the account is the treasury: owned by the program, at the
/// treasury's address, and tagged as the treasury.
pub fn load_treasury(info: &AccountView, is_writable: bool) -> (r: Result<(), ProgramError>)
    ensures
        r == load_treasury_result(info, is_writable),
{
    if !info.owner.same_as(&Address { bytes: PROGRAM_ID }) {
        return Err(ProgramError::InvalidAccountOwner);
    }
    match treasury_address_and_bump() {
        Some((a, _)) => {
            if !info.key.same_as(&a) {
                return Err(ProgramError::InvalidSeeds);
            }
        },
        None => return Err(ProgramError::InvalidSeeds),
    }
    if info.data.len() == 0 {
        return Err(ProgramError::UninitializedAccount);
    }
    if info.data[0] != 101 {
        return Err(ProgramError::InvalidAccountData);
    }
    if is_writable && !info.is_writable {
        return Err(ProgramError::InvalidAccountData);
    }
    Ok(())
}

pub open spec fn load_enhance_result(info: &AccountView, authority: Seq<u8>, is_writable: bool) -> Result<(), ProgramError> {
    if info.owner@ != PROGRAM_ID@ {
        Err(ProgramError::InvalidAccountOwner)
    } else if info.data@.len() == 0 {
        Err(ProgramError::UninitializedAccount)
    } else if !(info.data@.len() == crate::state::ENHANCER_LEN && info.data@[0] == 102) {
        Err(ProgramError::InvalidAccountData)
    } else if info.data@.subrange(8, 40) != authority {
        Err(ProgramError::InvalidAccountData)
    } else if !writable_ok(info, is_writable) {
        Err(ProgramError::InvalidAccountData)
    } else {
        Ok(())
    }
}

/// Errors unless the account is a live session record of the program whose
/// authority is `authority`, and writable when asked.
pub fn load_enhance(info: &AccountView, authority: &Address, is_writable: bool) -> (r: Result<(), ProgramError>)
    ensures
        r == load_enhance_result(info, authority@, is_writable),
{
    if !info.owner.same_as(&Address { bytes: PROGRAM_ID }) {
        return Err(ProgramError::InvalidAccountOwner);
    }
    if info.data.len() == 0 {
        return Err(ProgramError::UninitializedAccount);
    }
    let enhancer = Enhancer::try_from_bytes(info.data.as_slice())?;
    if !enhancer.authority.same_as(authority) {
        return Err(ProgramError::InvalidAccountData);
    }
    if is_writable && !info.is_writable {
        return Err(ProgramError::InvalidAccountData);
    }
    Ok(())
}

/// Errors unless the account is the sysvar at `key`.
pub fn load_sysvar(info: &AccountView, key: &Address) -> (r: Result<(), ProgramError>)
    ensures
        r == if info.owner@ != SYSVAR_PROGRAM_ID@ {
            Err(ProgramError::InvalidAccountOwner)
        } else if info.key@ != key@ {
            Err(ProgramError::InvalidAccountData)
        } else {
            Ok(())
        },
{
    if !info.owner.same_as(&Address { bytes: SYSVAR_PROGRAM_ID }) {
        return Err(ProgramError::InvalidAccountOwner);
    }
    load_account(info, key, false)
}

/// Errors unless the account is at `key`, and writable when asked.
pub fn load_account(info: &AccountView, key: &Address, is_writable: bool) -> (r: Result<(), ProgramError>)
    ensures
        r == if info.key@ != key@ {
            Err(ProgramError::InvalidAccountData)
        } else if !writable_ok(info, is_writable) {
            Err(ProgramError::InvalidAccountData)
        } else {
            Ok(())
        },
{
    if !info.key.same_as(key) {
        return Err(ProgramError::InvalidAccountData);
    }
    if is_writable && !info.is_writable {
        return Err(ProgramError::InvalidAccountData);
    }
    Ok(())
}

} // verus!
