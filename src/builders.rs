use crate::address::{find_program_address, program_address, Address};
use crate::consts::{
    CHROMIUM_MINT_ADDRESS, COAL_MINT_ADDRESS, INGOT_MINT_ADDRESS, MPL_CORE_PROGRAM_ID, ONE_TOKEN,
    PROGRAM_ID, SLOT_HASHES_SYSVAR_ID, SYSTEM_PROGRAM_ID, TOKEN_PROGRAM_ID, WOOD_MINT_ADDRESS,
    ASSOCIATED_TOKEN_PROGRAM_ID,
};
use crate::error::ProgramError;
use crate::instruction::{
    string_encoding, string_fits, EnhanceArgs, ForgeInstruction, InitializeArgs, InitializeEnhanceArgs, MintV1Args, NewV1Args,
    VerifyArgs,
};
use crate::loaders::{
    associated_token_address, collection_authority_seed_list, collection_authority_seeds, config_seed_list, config_seeds, enhancer_seed_list, enhancer_seeds,
    get_associated_token_address, treasury_address_and_bump, treasury_seeds,
};
use crate::state::u64_bytes;
use vstd::prelude::*;
use vstd::utf8::{is_ascii_chars, is_ascii_chars_encode_utf8};
use vstd::string::StringExecFns;

verus! {

/// One account an instruction names, with how it is used.
#[derive(Debug, Clone, Copy)]
pub struct AccountMeta {
    pub pubkey: Address,
    pub is_signer: bool,
    pub is_writable: bool,
}

impl AccountMeta {
    pub fn new(pubkey: Address, is_signer: bool) -> (r: AccountMeta)
        ensures
            r.pubkey == pubkey && r.is_signer == is_signer && r.is_writable,
    {
        AccountMeta { pubkey, is_signer, is_writable: true }
    }

    pub fn new_readonly(pubkey: Address, is_signer: bool) -> (r: AccountMeta)
        ensures
            r.pubkey == pubkey && r.is_signer == is_signer && !r.is_writable,
    {
        AccountMeta { pubkey, is_signer, is_writable: false }
    }
}

/// An instruction addressed to a program.
#[derive(Debug)]
pub struct Instruction {
    pub program_id: Address,
    pub accounts: Vec<AccountMeta>,
    pub data: Vec<u8>,
}

pub open spec fn metas_view(s: Seq<AccountMeta>) -> Seq<(Seq<u8>, bool, bool)> {
    s.map_values(|m: AccountMeta| (m.pubkey@, m.is_signer, m.is_writable))
}

pub open spec fn derived(seeds: Seq<Seq<u8>>) -> (Seq<u8>, u8) {
    program_address(seeds, PROGRAM_ID@)->Some_0
}

/// The bytes of the pickaxe recipe's definition.
pub open spec fn pickaxe_recipe_bytes(config_bump: u8, authority_bump: u8) -> Seq<u8> {
    seq![1u8] + string_encoding("Miner's Pickaxe"@) + string_encoding(
        "https://minechain.gg/metadata.pickaxe.json"@,
    ) + u64_bytes(70) + u64_bytes(1000) + COAL_MINT_ADDRESS@ + SYSTEM_PROGRAM_ID@ + SYSTEM_PROGRAM_ID@
        + u64_bytes(ONE_TOKEN) + u64_bytes(0) + u64_bytes(0) + seq![config_bump, authority_bump]
}

proof fn lemma_ascii_fits(s: Seq<char>)
    requires
        is_ascii_chars(s),
        s.len() <= u32::MAX,
    ensures
        string_fits(s),
{
    is_ascii_chars_encode_utf8(s);
}

proof fn lemma_literals_fit()
    ensures
        string_fits("Miner's Pickaxe"@),
        string_fits("https://minechain.gg/metadata.pickaxe.json"@),
{
    reveal_strlit("Miner's Pickaxe");
    reveal_strlit("https://minechain.gg/metadata.pickaxe.json");
    lemma_ascii_fits("Miner's Pickaxe"@);
    lemma_ascii_fits("https://minechain.gg/metadata.pickaxe.json"@);
}

/// Builds the instruction that creates the treasury.
pub fn initialize(signer: Address) -> (r: Result<Instruction, ProgramError>)
    ensures
        r is Ok <==> program_address(treasury_seeds(), PROGRAM_ID@) is Some,
        r is Ok ==> ({
            let t = derived(treasury_seeds());
            &&& r->Ok_0.program_id@ == PROGRAM_ID@
            &&& metas_view(r->Ok_0.accounts@) == seq![(signer@, true, true), (t.0, false, true), (SYSTEM_PROGRAM_ID@, false, false)]
            &&& r->Ok_0.data@ == seq![2u8, t.1]
        }),
        r is Err ==> r == Err::<Instruction, ProgramError>(ProgramError::InvalidSeeds),
{
    let (treasury, bump) = match treasury_address_and_bump() {
        Some(x) => x,
        None => return Err(ProgramError::InvalidSeeds),
    };
    let ix = ForgeInstruction::Initialize(InitializeArgs { treasury_bump: bump });
    let data = ix.try_to_vec()?;
    let accounts = vec![
        AccountMeta::new(signer, true),
        AccountMeta::new(treasury, false),
        AccountMeta::new_readonly(Address::system_program(), false),
    ];
    proof {
        assert(metas_view(accounts@) =~= seq![(signer@, true, true), (treasury@, false, true), (SYSTEM_PROGRAM_ID@, false, false)]);
    }
    Ok(Instruction { program_id: Address { bytes: PROGRAM_ID }, accounts, data })
}

/// Builds the administrative proxy transfer to `destination`.
pub fn verify(signer: Address, destination: Address) -> (r: Result<Instruction, ProgramError>)
    ensures
        r is Ok <==> program_address(collection_authority_seeds(), PROGRAM_ID@) is Some,
        r is Ok ==> ({
            let a = derived(collection_authority_seeds());
            &&& r->Ok_0.program_id@ == PROGRAM_ID@
            &&& metas_view(r->Ok_0.accounts@) == seq![
                (signer@, true, true),
                (a.0, false, true),
                (destination@, false, true),
                (SYSTEM_PROGRAM_ID@, false, false),
            ]
            &&& r->Ok_0.data@ == seq![3u8, a.1]
        }),
{
    let (authority, bump) = match find_program_address(&collection_authority_seed_list(), &Address { bytes: PROGRAM_ID }) {
        Some(x) => x,
        None => return Err(ProgramError::InvalidSeeds),
    };
    let data = ForgeInstruction::Verify(VerifyArgs { collection_authority_bump: bump }).try_to_vec()?;
    let accounts = vec![
        AccountMeta::new(signer, true),
        AccountMeta::new(authority, false),
        AccountMeta::new(destination, false),
        AccountMeta::new_readonly(Address::system_program(), false),
    ];
    proof {
        assert(metas_view(accounts@) =~= seq![
            (signer@, true, true),
            (authority@, false, true),
            (destination@, false, true),
            (SYSTEM_PROGRAM_ID@, false, false),
        ]);
    }
    Ok(Instruction { program_id: Address { bytes: PROGRAM_ID }, accounts, data })
}

/// Builds the definition of the pickaxe recipe for `collection`: one whole
/// coal token, the other two slots inert.
pub fn new(signer: Address, collection: Address) -> (r: Result<Instruction, ProgramError>)
    ensures
        r is Ok <==> program_address(collection_authority_seeds(), PROGRAM_ID@) is Some
            && program_address(config_seeds(collection@), PROGRAM_ID@) is Some,
        r is Ok ==> ({
            let a = derived(collection_authority_seeds());
            let c = derived(config_seeds(collection@));
            &&& r->Ok_0.program_id@ == PROGRAM_ID@
            &&& metas_view(r->Ok_0.accounts@) == seq![
                (signer@, true, true),
                (collection@, true, true),
                (a.0, false, false),
                (c.0, false, true),
                (MPL_CORE_PROGRAM_ID@, false, false),
                (TOKEN_PROGRAM_ID@, false, false),
                (ASSOCIATED_TOKEN_PROGRAM_ID@, false, false),
                (SYSTEM_PROGRAM_ID@, false, true),
                (COAL_MINT_ADDRESS@, false, false),
                (WOOD_MINT_ADDRESS@, false, false),
            ]
            &&& r->Ok_0.data@ == pickaxe_recipe_bytes(c.1, a.1)
        }),
{
    let program = Address { bytes: PROGRAM_ID };
    let (authority, authority_bump) = match find_program_address(&collection_authority_seed_list(), &program) {
        Some(x) => x,
        None => return Err(ProgramError::InvalidSeeds),
    };
    let (config, config_bump) = match find_program_address(&config_seed_list(&collection), &program) {
        Some(x) => x,
        None => return Err(ProgramError::InvalidSeeds),
    };
    let args = NewV1Args {
        name: String::from_str("Miner's Pickaxe"),
        uri: String::from_str("https://minechain.gg/metadata.pickaxe.json"),
        multiplier: 70,
        durability: 1000,
        amounts: [ONE_TOKEN, 0, 0],
        ingredients: [Address { bytes: COAL_MINT_ADDRESS }, Address::system_program(), Address::system_program()],
        config_bump,
        collection_authority_bump: authority_bump,
    };
    let ix = ForgeInstruction::NewV1(args);
    proof {
        lemma_literals_fit();
    }
    let data = ix.try_to_vec()?;
    let accounts = vec![
        AccountMeta::new(signer, true),
        AccountMeta::new(collection, true),
        AccountMeta::new_readonly(authority, false),
        AccountMeta::new(config, false),
        AccountMeta::new_readonly(Address { bytes: MPL_CORE_PROGRAM_ID }, false),
        AccountMeta::new_readonly(Address { bytes: TOKEN_PROGRAM_ID }, false),
        AccountMeta::new_readonly(Address { bytes: ASSOCIATED_TOKEN_PROGRAM_ID }, false),
        AccountMeta::new(Address::system_program(), false),
        AccountMeta::new_readonly(Address { bytes: COAL_MINT_ADDRESS }, false),
        AccountMeta::new_readonly(Address { bytes: WOOD_MINT_ADDRESS }, false),
    ];
    proof {
        assert(metas_view(accounts@) =~= seq![
            (signer@, true, true),
            (collection@, true, true),
            (authority@, false, false),
            (config@, false, true),
            (MPL_CORE_PROGRAM_ID@, false, false),
            (TOKEN_PROGRAM_ID@, false, false),
            (ASSOCIATED_TOKEN_PROGRAM_ID@, false, false),
            (SYSTEM_PROGRAM_ID@, false, true),
            (COAL_MINT_ADDRESS@, false, false),
            (WOOD_MINT_ADDRESS@, false, false),
        ]);
    }
    proof {
        assert(data@ =~= pickaxe_recipe_bytes(config_bump, authority_bump));
    }
    Ok(Instruction { program_id: program, accounts, data })
}

/// Builds the crafting of one item of `collection` into `new_asset`.
pub fn mint(signer: Address, collection: Address, new_asset: Address, resource: String) -> (r: Result<Instruction, ProgramError>)
    ensures
        r is Ok <==> program_address(collection_authority_seeds(), PROGRAM_ID@) is Some
            && program_address(config_seeds(collection@), PROGRAM_ID@) is Some
            && associated_token_address(signer@, INGOT_MINT_ADDRESS@) is Some
            && associated_token_address(signer@, WOOD_MINT_ADDRESS@) is Some
            && string_fits(resource@),
        r is Ok ==> ({
            let a = derived(collection_authority_seeds());
            let c = derived(config_seeds(collection@));
            &&& r->Ok_0.program_id@ == PROGRAM_ID@
            &&& metas_view(r->Ok_0.accounts@) == seq![
                (signer@, true, true),
                (new_asset@, true, true),
                (collection@, false, true),
                (a.0, false, false),
                (c.0, false, false),
                (MPL_CORE_PROGRAM_ID@, false, false),
                (TOKEN_PROGRAM_ID@, false, false),
                (SYSTEM_PROGRAM_ID@, false, true),
                (INGOT_MINT_ADDRESS@, false, true),
                (associated_token_address(signer@, INGOT_MINT_ADDRESS@)->Some_0, false, true),
                (WOOD_MINT_ADDRESS@, false, true),
                (associated_token_address(signer@, WOOD_MINT_ADDRESS@)->Some_0, false, true),
            ]
            &&& r->Ok_0.data@ == seq![0u8] + string_encoding(resource@) + seq![c.1, a.1]
        }),
{
    let program = Address { bytes: PROGRAM_ID };
    let (authority, authority_bump) = match find_program_address(&collection_authority_seed_list(), &program) {
        Some(x) => x,
        None => return Err(ProgramError::InvalidSeeds),
    };
    let (config, config_bump) = match find_program_address(&config_seed_list(&collection), &program) {
        Some(x) => x,
        None => return Err(ProgramError::InvalidSeeds),
    };
    let ingot = Address { bytes: INGOT_MINT_ADDRESS };
    let wood = Address { bytes: WOOD_MINT_ADDRESS };
    let ingot_tokens = match get_associated_token_address(&signer, &ingot) {
        Some(x) => x,
        None => return Err(ProgramError::InvalidSeeds),
    };
    let wood_tokens = match get_associated_token_address(&signer, &wood) {
        Some(x) => x,
        None => return Err(ProgramError::InvalidSeeds),
    };
    let ghost text = resource@;
    let ix = ForgeInstruction::MintV1(MintV1Args { resource, config_bump, collection_authority_bump: authority_bump });
    let data = ix.try_to_vec()?;
    let accounts = vec![
        AccountMeta::new(signer, true),
        AccountMeta::new(new_asset, true),
        AccountMeta::new(collection, false),
        AccountMeta::new_readonly(authority, false),
        AccountMeta::new_readonly(config, false),
        AccountMeta::new_readonly(Address { bytes: MPL_CORE_PROGRAM_ID }, false),
        AccountMeta::new_readonly(Address { bytes: TOKEN_PROGRAM_ID }, false),
        AccountMeta::new(Address::system_program(), false),
        AccountMeta::new(ingot, false),
        AccountMeta::new(ingot_tokens, false),
        AccountMeta::new(wood, false),
        AccountMeta::new(wood_tokens, false),
    ];
    proof {
        assert(metas_view(accounts@) =~= seq![
            (signer@, true, true),
            (new_asset@, true, true),
            (collection@, false, true),
            (authority@, false, false),
            (config@, false, false),
            (MPL_CORE_PROGRAM_ID@, false, false),
            (TOKEN_PROGRAM_ID@, false, false),
            (SYSTEM_PROGRAM_ID@, false, true),
            (INGOT_MINT_ADDRESS@, false, true),
            (ingot_tokens@, false, true),
            (WOOD_MINT_ADDRESS@, false, true),
            (wood_tokens@, false, true),
        ]);
    }
    Ok(Instruction { program_id: program, accounts, data })
}

/// Builds the opening of an enhancement session on `asset`.
pub fn init_enhance(signer: Address, asset: Address) -> (r: Result<Instruction, ProgramError>)
    ensures
        r is Ok <==> program_address(enhancer_seeds(signer@, asset@), PROGRAM_ID@) is Some
            && associated_token_address(signer@, CHROMIUM_MINT_ADDRESS@) is Some,
        r is Ok ==> ({
            let e = derived(enhancer_seeds(signer@, asset@));
            &&& r->Ok_0.program_id@ == PROGRAM_ID@
            &&& metas_view(r->Ok_0.accounts@) == seq![
                (signer@, true, true),
                (asset@, false, false),
                (e.0, false, true),
                (CHROMIUM_MINT_ADDRESS@, false, true),
                (associated_token_address(signer@, CHROMIUM_MINT_ADDRESS@)->Some_0, false, true),
                (TOKEN_PROGRAM_ID@, false, false),
                (SLOT_HASHES_SYSVAR_ID@, false, false),
                (SYSTEM_PROGRAM_ID@, false, false),
            ]
            &&& r->Ok_0.data@ == seq![4u8, e.1]
        }),
{
    let program = Address { bytes: PROGRAM_ID };
    let (enhancer, bump) = match find_program_address(&enhancer_seed_list(&signer, &asset), &program) {
        Some(x) => x,
        None => return Err(ProgramError::InvalidSeeds),
    };
    let chromium = Address { bytes: CHROMIUM_MINT_ADDRESS };
    let tokens = match get_associated_token_address(&signer, &chromium) {
        Some(x) => x,
        None => return Err(ProgramError::InvalidSeeds),
    };
    let data = ForgeInstruction::InitializeEnhance(InitializeEnhanceArgs { enhancer_bump: bump }).try_to_vec()?;
    let accounts = vec![
        AccountMeta::new(signer, true),
        AccountMeta::new_readonly(asset, false),
        AccountMeta::new(enhancer, false),
        AccountMeta::new(chromium, false),
        AccountMeta::new(tokens, false),
        AccountMeta::new_readonly(Address { bytes: TOKEN_PROGRAM_ID }, false),
        AccountMeta::new_readonly(Address { bytes: SLOT_HASHES_SYSVAR_ID }, false),
        AccountMeta::new_readonly(Address::system_program(), false),
    ];
    proof {
        assert(metas_view(accounts@) =~= seq![
            (signer@, true, true),
            (asset@, false, false),
            (enhancer@, false, true),
            (CHROMIUM_MINT_ADDRESS@, false, true),
            (tokens@, false, true),
            (TOKEN_PROGRAM_ID@, false, false),
            (SLOT_HASHES_SYSVAR_ID@, false, false),
            (SYSTEM_PROGRAM_ID@, false, false),
        ]);
    }
    Ok(Instruction { program_id: program, accounts, data })
}

/// Builds the settlement of the signer's session on `asset`, minting the
/// enhanced item into `new_mint`.
pub fn enhance(signer: Address, asset: Address, new_mint: Address, collection: Address) -> (r: Result<Instruction, ProgramError>)
    ensures
        r is Ok <==> program_address(collection_authority_seeds(), PROGRAM_ID@) is Some
            && program_address(enhancer_seeds(signer@, asset@), PROGRAM_ID@) is Some,
        r is Ok ==> ({
            let a = derived(collection_authority_seeds());
            let e = derived(enhancer_seeds(signer@, asset@));
            &&& r->Ok_0.program_id@ == PROGRAM_ID@
            &&& metas_view(r->Ok_0.accounts@) == seq![
                (signer@, true, true),
                (new_mint@, true, true),
                (asset@, false, true),
                (collection@, false, true),
                (a.0, false, false),
                (e.0, false, true),
                (MPL_CORE_PROGRAM_ID@, false, false),
                (SYSTEM_PROGRAM_ID@, false, false),
                (SLOT_HASHES_SYSVAR_ID@, false, false),
            ]
            &&& r->Ok_0.data@ == seq![5u8, e.1, a.1]
        }),
{
    let program = Address { bytes: PROGRAM_ID };
    let (authority, authority_bump) = match find_program_address(&collection_authority_seed_list(), &program) {
        Some(x) => x,
        None => return Err(ProgramError::InvalidSeeds),
    };
    let (enhancer, enhancer_bump) = match find_program_address(&enhancer_seed_list(&signer, &asset), &program) {
        Some(x) => x,
        None => return Err(ProgramError::InvalidSeeds),
    };
    let data = ForgeInstruction::Enhance(EnhanceArgs { enhancer_bump, collection_authority_bump: authority_bump }).try_to_vec()?;
    let accounts = vec![
        AccountMeta::new(signer, true),
        AccountMeta::new(new_mint, true),
        AccountMeta::new(asset, false),
        AccountMeta::new(collection, false),
        AccountMeta::new_readonly(authority, false),
        AccountMeta::new(enhancer, false),
        AccountMeta::new_readonly(Address { bytes: MPL_CORE_PROGRAM_ID }, false),
        AccountMeta::new_readonly(Address::system_program(), false),
        AccountMeta::new_readonly(Address { bytes: SLOT_HASHES_SYSVAR_ID }, false),
    ];
    proof {
        assert(metas_view(accounts@) =~= seq![
            (signer@, true, true),
            (new_mint@, true, true),
            (asset@, false, true),
            (collection@, false, true),
            (authority@, false, false),
            (enhancer@, false, true),
            (MPL_CORE_PROGRAM_ID@, false, false),
            (SYSTEM_PROGRAM_ID@, false, false),
            (SLOT_HASHES_SYSVAR_ID@, false, false),
        ]);
    }
    Ok(Instruction { program_id: program, accounts, data })
}

} // verus!
