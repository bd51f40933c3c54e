use crate::address::Address;
use crate::attributes::{attributes_view, Attribute};
use crate::error::{ForgeError, ProgramError};
use crate::state::Config;
use vstd::prelude::*;
use vstd::string::StringExecFns;

verus! {

/// Name, uri and attributes of an item asset about to be minted.
#[derive(Debug)]
pub struct ItemTemplate {
    pub name: String,
    pub uri: String,
    pub attributes: Vec<Attribute>,
}

/// Name, uri and base durability of the item crafted for a resource tag.
pub open spec fn crafted_item(resource: Seq<char>) -> Option<(Seq<char>, Seq<char>, Seq<char>)> {
    if resource == "coal"@ {
        Some(("Miner's Pickaxe"@, "https://minechain.gg/metadata.pickaxe.json"@, "1000"@))
    } else if resource == "wood"@ {
        Some(("Woodcutter's Axe"@, "https://minechain.gg/metadata.axe.json"@, "100"@))
    } else {
        None
    }
}

/// Attributes of a freshly crafted item.
pub open spec fn crafted_attributes(resource: Seq<char>, durability: Seq<char>) -> Seq<(Seq<char>, Seq<char>)> {
    seq![
        ("multiplier"@, "70"@),
        ("rarity"@, "common"@),
        ("resource"@, resource),
        ("durability"@, durability),
    ]
}

/// Whether `t` is the item template crafted for `resource`.
pub open spec fn is_crafted_template(t: ItemTemplate, resource: Seq<char>) -> bool {
    match crafted_item(resource) {
        Some((name, uri, durability)) => {
            &&& t.name@ == name
            &&& t.uri@ == uri
            &&& attributes_view(t.attributes@) == crafted_attributes(resource, durability)
        },
        None => false,
    }
}

/// The template of the item crafted for `resource`; an unknown tag is rejected.
pub fn item_for_resource(resource: &String) -> (r: Result<ItemTemplate, ProgramError>)
    ensures
        match r {
            Ok(t) => is_crafted_template(t, resource@),
            Err(e) => crafted_item(resource@) is None && e == ProgramError::Custom(
                ForgeError::InvalidResource.spec_code(),
            ),
        },
{
    let coal = String::from_str("coal");
    let wood = String::from_str("wood");
    let (name, uri, durability) = if resource.eq(&coal) {
        (
            String::from_str("Miner's Pickaxe"),
            String::from_str("https://minechain.gg/metadata.pickaxe.json"),
            String::from_str("1000"),
        )
    } else if resource.eq(&wood) {
        (
            String::from_str("Woodcutter's Axe"),
            String::from_str("https://minechain.gg/metadata.axe.json"),
            String::from_str("100"),
        )
    } else {
        return Err(ProgramError::from(ForgeError::InvalidResource));
    };
    let attributes = vec![
        Attribute::new("multiplier", String::from_str("70")),
        Attribute::new("rarity", String::from_str("common")),
        Attribute::new("resource", resource.clone()),
        Attribute::new("durability", durability),
    ];
    proof {
        let entry = crafted_item(resource@)->0;
        assert(attributes_view(attributes@) =~= crafted_attributes(resource@, entry.2));
    }
    Ok(ItemTemplate { name, uri, attributes })
}

/// Whether every active slot of `c` is covered by the balance aligned with it.
pub open spec fn balances_cover(c: Config, balances: Seq<u64>) -> bool {
    forall|i: int| 0 <= i < 3 ==> c.amounts[i] <= #[trigger] balances[i]
}

/// The balances left once every slot of `c` has been debited.
pub open spec fn debited(c: Config, balances: Seq<u64>) -> Seq<u64> {
    Seq::new(3, |i: int| (balances[i] - c.amounts[i]) as u64)
}

/// The (ingredient, amount) pairs that crafting with `c` consumes, among the
/// first `n` slots, in slot order: the slots with a non-zero amount.
pub open spec fn active_slots(c: Config, n: int) -> Seq<(Seq<u8>, u64)>
    decreases n,
{
    if n <= 0 {
        Seq::empty()
    } else {
        active_slots(c, n - 1) + if c.amounts[n - 1] > 0 {
            seq![(c.ingredients[n - 1]@, c.amounts[n - 1])]
        } else {
            Seq::empty()
        }
    }
}

/// The ingredients that crafting with `config` consumes, in slot order,
/// skipping the slots whose amount is zero.
pub fn ingredient_debits(config: &Config) -> (r: Vec<(Address, u64)>)
    ensures
        r@.map_values(|d: (Address, u64)| (d.0@, d.1)) == active_slots(*config, 3),
{
    let mut out: Vec<(Address, u64)> = Vec::new();
    let mut i: usize = 0;
    while i < 3
        invariant
            i <= 3,
            out@.map_values(|d: (Address, u64)| (d.0@, d.1)) == active_slots(*config, i as int),
        decreases 3 - i,
    {
        if config.amounts[i] > 0 {
            out.push((config.ingredients[i], config.amounts[i]));
        }
        i = i + 1;
        proof {
            assert(out@.map_values(|d: (Address, u64)| (d.0@, d.1)) =~= active_slots(
                *config,
                i as int,
            ));
        }
    }
    out
}

/// Crafts one item against the caller's three ingredient balances, aligned
/// with the recipe's slots. Either every active slot is debited by exactly
/// its amount and the item template is returned, or nothing changes.
pub fn craft(config: &Config, resource: &String, balances: &mut Vec<u64>) -> (r: Result<ItemTemplate, ProgramError>)
    requires
        old(balances)@.len() == 3,
    ensures
        !balances_cover(*config, old(balances)@) ==> r == Err::<ItemTemplate, ProgramError>(
            ProgramError::InsufficientFunds,
        ),
        balances_cover(*config, old(balances)@) && crafted_item(resource@) is None ==> r
            == Err::<ItemTemplate, ProgramError>(
            ProgramError::Custom(ForgeError::InvalidResource.spec_code()),
        ),
        r is Ok <==> balances_cover(*config, old(balances)@) && crafted_item(resource@) is Some,
        r is Ok ==> is_crafted_template(r->Ok_0, resource@)
            && final(balances)@ == debited(*config, old(balances)@),
        r is Err ==> final(balances)@ == old(balances)@,
{
    let mut i: usize = 0;
    while i < 3
        invariant
            i <= 3,
            balances@.len() == 3,
            forall|j: int| 0 <= j < i ==> config.amounts[j] <= #[trigger] balances@[j],
        decreases 3 - i,
    {
        if config.amounts[i] > balances[i] {
            return Err(ProgramError::InsufficientFunds);
        }
        i = i + 1;
    }
    let item = item_for_resource(resource)?;
    let ghost before = balances@;
    let mut k: usize = 0;
    while k < 3
        invariant
            k <= 3,
            balances@.len() == 3,
            balances_cover(*config, before),
            forall|j: int| 0 <= j < k ==> #[trigger] balances@[j] == (before[j] - config.amounts[j]) as u64,
            forall|j: int| k <= j < 3 ==> #[trigger] balances@[j] == before[j],
        decreases 3 - k,
    {
        let left = balances[k] - config.amounts[k];
        balances.set(k, left);
        k = k + 1;
    }
    proof {
        assert(balances@ =~= debited(*config, before));
    }
    Ok(item)
}

/// Crafting debits exactly the amount of every active slot and leaves every
/// inert slot's balance as it was, whatever ingredient that slot names.
pub proof fn lemma_craft_debits_exact(c: Config, before: Seq<u64>, i: int)
    requires
        before.len() == 3,
        balances_cover(c, before),
        0 <= i < 3,
    ensures
        c.amounts[i] > 0 ==> before[i] - debited(c, before)[i] == c.amounts[i],
        c.amounts[i] == 0 ==> debited(c, before)[i] == before[i],
{
    assert(c.amounts[i] <= before[i]);
}

} // verus!
