use forge::address::Address;
use forge::error::ProgramError;
use forge::instruction::{
    EnhanceArgs, ForgeInstruction, InitializeArgs, InitializeEnhanceArgs, MintV1Args, NewV1Args,
    VerifyArgs,
};
use forge::state::{AccountDiscriminator, Config, Enhancer, Item, Treasury};

fn addr(b: u8) -> Address {
    Address { bytes: [b; 32] }
}

#[test]
fn discriminators() {
    assert_eq!(Config::discriminator(), 100);
    assert_eq!(Treasury::discriminator(), 101);
    assert_eq!(Enhancer::discriminator(), 102);
    assert_eq!(Item::discriminator(), 103);
    assert_eq!(AccountDiscriminator::try_from_u8(101), Ok(AccountDiscriminator::Treasury));
    assert_eq!(AccountDiscriminator::try_from_u8(99), Err(ProgramError::InvalidAccountData));
    assert_eq!(AccountDiscriminator::try_from_u8(104), Err(ProgramError::InvalidAccountData));
}

#[test]
fn config_layout_and_round_trip() {
    let c = Config { amounts: [1, 0x0102, u64::MAX], ingredients: [addr(7), addr(8), addr(9)] };
    let bytes = c.to_bytes();
    assert_eq!(bytes.len(), 128);
    assert_eq!(&bytes[0..8], &[100, 0, 0, 0, 0, 0, 0, 0]);
    assert_eq!(&bytes[8..16], &[1, 0, 0, 0, 0, 0, 0, 0]);
    assert_eq!(&bytes[16..24], &[2, 1, 0, 0, 0, 0, 0, 0]);
    assert_eq!(&bytes[24..32], &[0xff; 8]);
    assert_eq!(&bytes[32..64], &[7; 32]);
    assert_eq!(&bytes[96..128], &[9; 32]);
    let back = Config::try_from_bytes(&bytes).unwrap();
    assert_eq!(back.amounts, c.amounts);
    assert_eq!(back.ingredients, c.ingredients);
}

#[test]
fn config_rejects_wrong_tag_or_length() {
    let c = Config { amounts: [1, 2, 3], ingredients: [addr(1), addr(2), addr(3)] };
    let mut bytes = c.to_bytes();
    bytes[0] = 102;
    assert_eq!(Config::try_from_bytes(&bytes).unwrap_err(), ProgramError::InvalidAccountData);
    let short = &c.to_bytes()[..127];
    assert_eq!(Config::try_from_bytes(short).unwrap_err(), ProgramError::InvalidAccountData);
    assert_eq!(Config::try_from_bytes(&[]).unwrap_err(), ProgramError::InvalidAccountData);
}

#[test]
fn enhancer_layout_and_round_trip() {
    let e = Enhancer { authority: addr(5), slot: 0x1122, hash: [3u8; 32] };
    let bytes = e.to_bytes();
    assert_eq!(bytes.len(), 80);
    assert_eq!(bytes[0], 102);
    assert_eq!(&bytes[8..40], &[5; 32]);
    assert_eq!(&bytes[40..48], &[0x22, 0x11, 0, 0, 0, 0, 0, 0]);
    assert_eq!(&bytes[48..80], &[3; 32]);
    let back = Enhancer::try_from_bytes(&bytes).unwrap();
    assert_eq!(back.authority, e.authority);
    assert_eq!(back.slot, e.slot);
    assert_eq!(back.hash, e.hash);
}

#[test]
fn treasury_and_item_records() {
    assert_eq!(Treasury {}.to_bytes(), vec![101, 0, 0, 0, 0, 0, 0, 0]);
    let i = Item { durability: 1000 };
    let bytes = i.to_bytes();
    assert_eq!(bytes, vec![103, 0, 0, 0, 0, 0, 0, 0, 0xe8, 0x03, 0, 0, 0, 0, 0, 0]);
    assert_eq!(Item::try_from_bytes(&bytes), Ok(i));
    assert_eq!(Item::try_from_bytes(&bytes[..15]), Err(ProgramError::InvalidAccountData));
}

#[test]
fn mint_instruction_bytes() {
    let ix = ForgeInstruction::MintV1(MintV1Args {
        resource: "coal".to_string(),
        config_bump: 254,
        collection_authority_bump: 253,
    });
    let bytes = ix.try_to_vec().unwrap();
    assert_eq!(bytes, vec![0, 4, 0, 0, 0, b'c', b'o', b'a', b'l', 254, 253]);
    match ForgeInstruction::try_from_slice(&bytes).unwrap() {
        ForgeInstruction::MintV1(a) => {
            assert_eq!(a.resource, "coal");
            assert_eq!(a.config_bump, 254);
            assert_eq!(a.collection_authority_bump, 253);
        }
        other => panic!("unexpected {:?}", other),
    }
}

#[test]
fn new_instruction_round_trip() {
    let ix = ForgeInstruction::NewV1(NewV1Args {
        name: "Miner's Pickaxe".to_string(),
        uri: "https://minechain.gg/metadata.pickaxe.json".to_string(),
        multiplier: 70,
        durability: 1000,
        ingredients: [addr(1), addr(0), addr(0)],
        amounts: [100_000_000_000, 0, 0],
        config_bump: 9,
        collection_authority_bump: 8,
    });
    let bytes = ix.try_to_vec().unwrap();
    assert_eq!(bytes.len(), 1 + 4 + 15 + 4 + 42 + 138);
    match ForgeInstruction::try_from_slice(&bytes).unwrap() {
        ForgeInstruction::NewV1(a) => {
            assert_eq!(a.name, "Miner's Pickaxe");
            assert_eq!(a.uri, "https://minechain.gg/metadata.pickaxe.json");
            assert_eq!(a.multiplier, 70);
            assert_eq!(a.durability, 1000);
            assert_eq!(a.ingredients, [addr(1), addr(0), addr(0)]);
            assert_eq!(a.amounts, [100_000_000_000, 0, 0]);
            assert_eq!((a.config_bump, a.collection_authority_bump), (9, 8));
        }
        other => panic!("unexpected {:?}", other),
    }
}

#[test]
fn small_instructions_round_trip() {
    let cases = vec![
        (ForgeInstruction::Initialize(InitializeArgs { treasury_bump: 1 }), vec![2u8, 1]),
        (ForgeInstruction::Verify(VerifyArgs { collection_authority_bump: 2 }), vec![3, 2]),
        (ForgeInstruction::InitializeEnhance(InitializeEnhanceArgs { enhancer_bump: 3 }), vec![4, 3]),
        (
            ForgeInstruction::Enhance(EnhanceArgs { enhancer_bump: 4, collection_authority_bump: 5 }),
            vec![5, 4, 5],
        ),
    ];
    for (ix, expected) in cases {
        let bytes = ix.try_to_vec().unwrap();
        assert_eq!(bytes, expected);
        let back = ForgeInstruction::try_from_slice(&bytes).unwrap();
        assert_eq!(back.try_to_vec().unwrap(), expected);
    }
}

#[test]
fn malformed_instructions_are_rejected() {
    let bad = Err(ProgramError::InvalidInstructionData);
    assert_eq!(ForgeInstruction::try_from_slice(&[]).map(|_| ()), bad);
    assert_eq!(ForgeInstruction::try_from_slice(&[6]).map(|_| ()), bad);
    assert_eq!(ForgeInstruction::try_from_slice(&[2]).map(|_| ()), bad);
    assert_eq!(ForgeInstruction::try_from_slice(&[2, 1, 0]).map(|_| ()), bad);
    assert_eq!(ForgeInstruction::try_from_slice(&[0, 9, 0, 0, 0, b'c']).map(|_| ()), bad);
    assert_eq!(ForgeInstruction::try_from_slice(&[0, 1, 0, 0, 0, 0xff, 1, 2]).map(|_| ()), bad);
}

#[test]
fn craft_event_bytes() {
    let e = forge::state::CraftEvent { mint: addr(1), collection: addr(2) };
    let b = e.to_bytes();
    assert_eq!(b.len(), 64);
    assert_eq!(&b[..32], &[1; 32]);
    assert_eq!(&b[32..], &[2; 32]);
}

#[test]
fn mint_data_checks() {
    let mut d = vec![0u8; 82];
    d[45] = 1;
    assert_eq!(forge::token::check_mint_data(&d), Ok(()));
    d[45] = 0;
    assert_eq!(forge::token::check_mint_data(&d), Err(ProgramError::UninitializedAccount));
    d[45] = 2;
    assert_eq!(forge::token::check_mint_data(&d), Err(ProgramError::InvalidAccountData));
    d[45] = 1;
    d[0] = 2;
    assert_eq!(forge::token::check_mint_data(&d), Err(ProgramError::InvalidAccountData));
    assert_eq!(forge::token::check_mint_data(&d[..81]), Err(ProgramError::InvalidAccountData));
}
