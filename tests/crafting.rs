use forge::address::Address;
use forge::consts::{COAL_MINT_ADDRESS, ONE_TOKEN, SYSTEM_PROGRAM_ID};
use forge::craft::{craft, ingredient_debits, item_for_resource};
use forge::error::{ForgeError, ProgramError};
use forge::state::Config;

fn pickaxe_recipe() -> Config {
    Config {
        amounts: [ONE_TOKEN, 0, 0],
        ingredients: [
            Address { bytes: COAL_MINT_ADDRESS },
            Address { bytes: SYSTEM_PROGRAM_ID },
            Address { bytes: SYSTEM_PROGRAM_ID },
        ],
    }
}

fn pairs(template: &forge::craft::ItemTemplate) -> Vec<(String, String)> {
    template.attributes.iter().map(|a| (a.key.clone(), a.value.clone())).collect()
}

#[test]
fn craft_with_exact_balance_leaves_zero() {
    let mut balances = vec![ONE_TOKEN, 0, 0];
    let item = craft(&pickaxe_recipe(), &"coal".to_string(), &mut balances).unwrap();
    assert_eq!(balances, vec![0, 0, 0]);
    assert_eq!(item.name, "Miner's Pickaxe");
    assert_eq!(item.uri, "https://minechain.gg/metadata.pickaxe.json");
}

#[test]
fn craft_one_grain_short_fails_unchanged() {
    let mut balances = vec![ONE_TOKEN - 1, 0, 0];
    let r = craft(&pickaxe_recipe(), &"coal".to_string(), &mut balances);
    assert_eq!(r.map(|_| ()), Err(ProgramError::InsufficientFunds));
    assert_eq!(balances, vec![ONE_TOKEN - 1, 0, 0]);
}

#[test]
fn craft_unknown_resource_changes_nothing() {
    let mut balances = vec![5 * ONE_TOKEN, 7, 9];
    let r = craft(&pickaxe_recipe(), &"iron".to_string(), &mut balances);
    assert_eq!(r.map(|_| ()), Err(ProgramError::Custom(8)));
    assert_eq!(ProgramError::from(ForgeError::InvalidResource), ProgramError::Custom(8));
    assert_eq!(balances, vec![5 * ONE_TOKEN, 7, 9]);
}

#[test]
fn craft_debits_active_slots_only() {
    let recipe = Config {
        amounts: [5, 0, 7],
        ingredients: [Address { bytes: [1; 32] }, Address { bytes: [42; 32] }, Address { bytes: [3; 32] }],
    };
    let mut balances = vec![10, 3, 7];
    craft(&recipe, &"wood".to_string(), &mut balances).unwrap();
    assert_eq!(balances, vec![5, 3, 0]);
    let debits = ingredient_debits(&recipe);
    assert_eq!(debits, vec![(Address { bytes: [1; 32] }, 5), (Address { bytes: [3; 32] }, 7)]);
}

#[test]
fn crafted_attributes_by_resource() {
    let coal = item_for_resource(&"coal".to_string()).unwrap();
    assert_eq!(
        pairs(&coal),
        vec![
            ("multiplier".to_string(), "70".to_string()),
            ("rarity".to_string(), "common".to_string()),
            ("resource".to_string(), "coal".to_string()),
            ("durability".to_string(), "1000".to_string()),
        ]
    );
    let wood = item_for_resource(&"wood".to_string()).unwrap();
    assert_eq!(wood.name, "Woodcutter's Axe");
    assert_eq!(wood.uri, "https://minechain.gg/metadata.axe.json");
    assert_eq!(pairs(&wood)[3], ("durability".to_string(), "100".to_string()));
    assert!(item_for_resource(&"Coal".to_string()).is_err());
}
