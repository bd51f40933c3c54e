use forge::address::Address;
use forge::attributes::Attribute;
use forge::enhance::{open_session, rewrite_attributes, settle, settle_with_hash};
use forge::error::ProgramError;
use forge::state::Enhancer;

fn attr(k: &str, v: &str) -> Attribute {
    Attribute { key: k.to_string(), value: v.to_string() }
}

fn pairs(list: &[Attribute]) -> Vec<(String, String)> {
    list.iter().map(|a| (a.key.clone(), a.value.clone())).collect()
}

fn pickaxe_attributes() -> Vec<Attribute> {
    vec![
        attr("multiplier", "70"),
        attr("rarity", "common"),
        attr("resource", "coal"),
        attr("durability", "1000"),
    ]
}

#[test]
fn open_session_commits_to_digest() {
    let entry: Vec<u8> = (0u8..40).collect();
    let who = Address { bytes: [4; 32] };
    let s = open_session(&who, 1000, &entry);
    assert_eq!(s.authority, who);
    assert_eq!(s.slot, 1020);
    assert_eq!(s.hash, solana_program::keccak::hashv(&[&entry]).0);
    assert_ne!(s.hash[..], entry[..32]);
}

#[test]
fn settle_before_target_is_too_early() {
    let session = Enhancer { authority: Address { bytes: [1; 32] }, slot: 500, hash: [9; 32] };
    for now in [0u64, 499, 500] {
        let r = settle(&session, &vec![0u8; 40], now, &pickaxe_attributes());
        assert_eq!(r.map(|_| ()), Err(ProgramError::Custom(9)));
    }
}

#[test]
fn settle_uses_digest_of_commit_and_entry() {
    let session = Enhancer { authority: Address { bytes: [1; 32] }, slot: 500, hash: [9; 32] };
    let entry = vec![7u8; 40];
    let s = settle(&session, &entry, 503, &pickaxe_attributes()).unwrap();
    let digest = solana_program::keccak::hashv(&[&session.hash, &entry]).0;
    let direct = settle_with_hash(&digest, 500, 503, &pickaxe_attributes()).unwrap();
    assert_eq!(s.multiplier, direct.multiplier);
    assert!((320..=600).contains(&s.multiplier));
    assert_eq!(s.item.name, "Enhanced Miner's Pickaxe");
    assert_eq!(s.item.uri, "https://minechain.gg/metadata.pickaxe.uncommon.json");
}

#[test]
fn settle_rewrites_attributes() {
    let s = settle_with_hash(&[0u8; 32], 100, 101, &pickaxe_attributes()).unwrap();
    assert_eq!(s.multiplier, 320);
    assert_eq!(
        pairs(&s.item.attributes),
        vec![
            ("multiplier".to_string(), "320".to_string()),
            ("rarity".to_string(), "uncommon".to_string()),
            ("resource".to_string(), "coal".to_string()),
            ("durability".to_string(), "1000".to_string()),
        ]
    );
}

#[test]
fn settle_late_floors_multiplier() {
    let mut h = [0u8; 32];
    h[0] = 200;
    let on_time = settle_with_hash(&h, 100, 106, &pickaxe_attributes()).unwrap();
    assert_eq!(on_time.multiplier, 520);
    let late = settle_with_hash(&h, 100, 109, &pickaxe_attributes()).unwrap();
    assert_eq!(late.multiplier, 320);
}

#[test]
fn settle_wood_and_unknown_resources() {
    let wood = vec![attr("resource", "wood"), attr("durability", "100"), attr("multiplier", "70")];
    let s = settle_with_hash(&[0u8; 32], 1, 2, &wood).unwrap();
    assert_eq!(s.item.name, "Enhanced Woodcutter's Axe");
    assert_eq!(s.item.uri, "https://minechain.gg/metadata.axe.uncommon.json");
    assert_eq!(
        pairs(&s.item.attributes),
        vec![
            ("multiplier".to_string(), "320".to_string()),
            ("rarity".to_string(), "uncommon".to_string()),
            ("resource".to_string(), "wood".to_string()),
            ("durability".to_string(), "100".to_string()),
        ]
    );
    let stone = vec![attr("resource", "stone")];
    assert_eq!(settle_with_hash(&[0u8; 32], 1, 2, &stone).map(|_| ()), Err(ProgramError::Custom(8)));
    let none = vec![attr("durability", "5")];
    assert_eq!(settle_with_hash(&[0u8; 32], 1, 2, &none).map(|_| ()), Err(ProgramError::Custom(8)));
}

#[test]
fn rewrite_keeps_other_attributes_in_order() {
    let list = vec![attr("a", "1"), attr("rarity", "rare"), attr("b", "2"), attr("multiplier", "9")];
    let out = rewrite_attributes(&list, 18_446_744_073_709_551_615);
    assert_eq!(
        pairs(&out),
        vec![
            ("multiplier".to_string(), "18446744073709551615".to_string()),
            ("rarity".to_string(), "uncommon".to_string()),
            ("a".to_string(), "1".to_string()),
            ("b".to_string(), "2".to_string()),
        ]
    );
}
