use crate::address::Address;
use crate::attributes::{attributes_view, decimal, find_value, u64_to_decimal, value_of, Attribute};
use crate::craft::ItemTemplate;
use crate::error::{ForgeError, ProgramError};
use crate::random::{
    apply_decay, derive_number_from_hash, derived_number, settled_multiplier,
    ENHANCER_TARGET_SLOT, ENHANCE_MAX_MULTIPLIER, ENHANCE_MIN_MULTIPLIER,
};
use crate::state::Enhancer;
use vstd::prelude::*;
use vstd::string::StringExecFns;

verus! {

/// The Keccak-256 digest of a byte string.
pub uninterp spec fn keccak_digest(data: Seq<u8>) -> Seq<u8>;

/// Relies on `solana_program::keccak::hashv`: the Keccak-256 digest of the
/// concatenation of its parts, a function of those bytes alone.
#[verifier::external_body]
fn keccak(data: &Vec<u8>) -> (r: [u8; 32])
    ensures
        r@ == keccak_digest(data@),
{
    solana_program::keccak::hashv(&[data.as_slice()]).to_bytes()
}

/// The session opened at tick `current` by `authority`, committing to the
/// digest of the history entry `entry` observed at that tick.
pub open spec fn opened_session(authority: Seq<u8>, current: u64, entry: Seq<u8>, e: Enhancer) -> bool {
    &&& e.authority@ == authority
    &&& e.slot == current + ENHANCER_TARGET_SLOT
    &&& e.hash@ == keccak_digest(entry)
}

/// Opens a session: it may settle only after the commit delay, and it
/// commits to the digest of the history entry seen now.
pub fn open_session(authority: &Address, current_slot: u64, entry: &Vec<u8>) -> (r: Enhancer)
    requires
        current_slot + ENHANCER_TARGET_SLOT <= u64::MAX,
    ensures
        opened_session(authority@, current_slot, entry@, r),
{
    Enhancer { authority: *authority, slot: current_slot + ENHANCER_TARGET_SLOT, hash: keccak(entry) }
}

/// Name and uri of the enhanced item for a resource tag.
pub open spec fn enhanced_item(resource: Seq<char>) -> Option<(Seq<char>, Seq<char>)> {
    if resource == "coal"@ {
        Some(("Enhanced Miner's Pickaxe"@, "https://minechain.gg/metadata.pickaxe.uncommon.json"@))
    } else if resource == "wood"@ {
        Some(("Enhanced Woodcutter's Axe"@, "https://minechain.gg/metadata.axe.uncommon.json"@))
    } else {
        None
    }
}

/// Whether an attribute is carried over unchanged by an enhancement.
pub open spec fn is_kept(a: (Seq<char>, Seq<char>)) -> bool {
    a.0 != "multiplier"@ && a.0 != "rarity"@
}

/// The attributes carried over unchanged, in their order.
pub open spec fn kept_attributes(list: Seq<(Seq<char>, Seq<char>)>) -> Seq<(Seq<char>, Seq<char>)>
    decreases list.len(),
{
    if list.len() == 0 {
        Seq::empty()
    } else {
        kept_attributes(list.drop_last()) + if is_kept(list.last()) {
            seq![list.last()]
        } else {
            Seq::empty()
        }
    }
}

/// The attributes of the enhanced item: the new multiplier and rarity, then
/// every other attribute of the old item unchanged.
pub open spec fn enhanced_attributes(list: Seq<(Seq<char>, Seq<char>)>, multiplier: u64) -> Seq<(Seq<char>, Seq<char>)> {
    seq![("multiplier"@, decimal(multiplier as nat)), ("rarity"@, "uncommon"@)] + kept_attributes(list)
}

/// What settling yields from the final hash `h`: the error, or the multiplier
/// with the enhanced item's name, uri and attributes.
pub open spec fn settlement_outcome(
    h: Seq<u8>,
    target: u64,
    current: u64,
    attrs: Seq<(Seq<char>, Seq<char>)>,
) -> Result<(u64, Seq<char>, Seq<char>, Seq<(Seq<char>, Seq<char>)>), ProgramError> {
    if current <= target {
        Err(ProgramError::Custom(ForgeError::SlotTooEarly.spec_code()))
    } else {
        let m = settled_multiplier(
            derived_number(h, ENHANCE_MIN_MULTIPLIER as int, ENHANCE_MAX_MULTIPLIER as int),
            current as int,
            target as int,
        ) as u64;
        match value_of(attrs, "resource"@) {
            None => Err(ProgramError::Custom(ForgeError::InvalidResource.spec_code())),
            Some(resource) => match enhanced_item(resource) {
                None => Err(ProgramError::Custom(ForgeError::InvalidResource.spec_code())),
                Some((name, uri)) => Ok((m, name, uri, enhanced_attributes(attrs, m))),
            },
        }
    }
}

/// The enhanced item about to replace the old one.
#[derive(Debug)]
pub struct Settlement {
    pub multiplier: u64,
    pub item: ItemTemplate,
}

pub open spec fn settlement_matches(
    r: Result<Settlement, ProgramError>,
    o: Result<(u64, Seq<char>, Seq<char>, Seq<(Seq<char>, Seq<char>)>), ProgramError>,
) -> bool {
    match (r, o) {
        (Ok(s), Ok((m, name, uri, attrs))) => {
            &&& s.multiplier == m
            &&& s.item.name@ == name
            &&& s.item.uri@ == uri
            &&& attributes_view(s.item.attributes@) == attrs
        },
        (Err(e), Err(f)) => e == f,
        _ => false,
    }
}

/// The old item's attributes with the multiplier and rarity replaced.
pub fn rewrite_attributes(list: &Vec<Attribute>, multiplier: u64) -> (r: Vec<Attribute>)
    ensures
        attributes_view(r@) == enhanced_attributes(attributes_view(list@), multiplier),
{
    let mkey = String::from_str("multiplier");
    let rkey = String::from_str("rarity");
    let mut out: Vec<Attribute> = vec![
        Attribute::new("multiplier", u64_to_decimal(multiplier)),
        Attribute::new("rarity", String::from_str("uncommon")),
    ];
    let ghost full = attributes_view(list@);
    let ghost head = seq![("multiplier"@, decimal(multiplier as nat)), ("rarity"@, "uncommon"@)];
    proof {
        assert(attributes_view(out@) =~= head);
        assert(full.subrange(0, 0) =~= Seq::<(Seq<char>, Seq<char>)>::empty());
        assert(head + kept_attributes(full.subrange(0, 0)) =~= head);
    }
    let mut i: usize = 0;
    while i < list.len()
        invariant
            i <= list@.len(),
            mkey@ == "multiplier"@,
            rkey@ == "rarity"@,
            full == attributes_view(list@),
            attributes_view(out@) == head + kept_attributes(full.subrange(0, i as int)),
        decreases list@.len() - i,
    {
        proof {
            assert(full.subrange(0, i + 1).drop_last() =~= full.subrange(0, i as int));
        }
        let a = &list[i];
        let ghost cur = full.subrange(0, i + 1);
        proof {
            assert(cur.last() == full[i as int]);
            assert(full[i as int] == list@[i as int]@);
        }
        if !a.key.eq(&mkey) && !a.key.eq(&rkey) {
            let ghost before = out@;
            out.push(a.copy());
            proof {
                assert(attributes_view(out@) =~= attributes_view(before).push(full[i as int]));
                assert(is_kept(cur.last()));
                assert(attributes_view(out@) =~= head + kept_attributes(cur));
            }
        } else {
            proof {
                assert(!is_kept(cur.last()));
                assert(kept_attributes(cur) =~= kept_attributes(full.subrange(0, i as int)));
            }
        }
        i = i + 1;
    }
    proof {
        assert(full.subrange(0, i as int) =~= full);
    }
    out
}

/// Settles against the final hash: refuses before the target tick has
/// passed, then draws the multiplier, decays it for lateness, and builds the
/// enhanced item from the old item's attributes.
pub fn settle_with_hash(
    final_hash: &[u8; 32],
    target_slot: u64,
    current_slot: u64,
    attributes: &Vec<Attribute>,
) -> (r: Result<Settlement, ProgramError>)
    ensures
        settlement_matches(
            r,
            settlement_outcome(final_hash@, target_slot, current_slot, attributes_view(attributes@)),
        ),
{
    if current_slot <= target_slot {
        return Err(ProgramError::from(ForgeError::SlotTooEarly));
    }
    let raw = derive_number_from_hash(final_hash, ENHANCE_MIN_MULTIPLIER, ENHANCE_MAX_MULTIPLIER);
    let multiplier = apply_decay(raw, current_slot, target_slot);
    let resource = match find_value(attributes, "resource") {
        Some(v) => v,
        None => return Err(ProgramError::from(ForgeError::InvalidResource)),
    };
    let coal = String::from_str("coal");
    let wood = String::from_str("wood");
    let (name, uri) = if resource.eq(&coal) {
        (
            String::from_str("Enhanced Miner's Pickaxe"),
            String::from_str("https://minechain.gg/metadata.pickaxe.uncommon.json"),
        )
    } else if resource.eq(&wood) {
        (
            String::from_str("Enhanced Woodcutter's Axe"),
            String::from_str("https://minechain.gg/metadata.axe.uncommon.json"),
        )
    } else {
        return Err(ProgramError::from(ForgeError::InvalidResource));
    };
    let rewritten = rewrite_attributes(attributes, multiplier);
    Ok(Settlement { multiplier, item: ItemTemplate { name, uri, attributes: rewritten } })
}

/// The bytes hashed into the final hash: the committed hash, then the
/// history entry observed at settlement.
pub open spec fn reveal_input(committed: Seq<u8>, entry: Seq<u8>) -> Seq<u8> {
    committed + entry
}

/// Settles a session: the final hash is the digest of the committed hash
/// followed by the history entry observed now.
pub fn settle(session: &Enhancer, entry: &Vec<u8>, current_slot: u64, attributes: &Vec<Attribute>) -> (r: Result<Settlement, ProgramError>)
    ensures
        settlement_matches(
            r,
            settlement_outcome(
                keccak_digest(reveal_input(session.hash@, entry@)),
                session.slot,
                current_slot,
                attributes_view(attributes@),
            ),
        ),
        current_slot <= session.slot ==> r == Err::<Settlement, ProgramError>(
            ProgramError::Custom(ForgeError::SlotTooEarly.spec_code()),
        ),
{
    let mut input: Vec<u8> = Vec::new();
    let mut i: usize = 0;
    while i < 32
        invariant
            i <= 32,
            input@ == session.hash@.subrange(0, i as int),
        decreases 32 - i,
    {
        input.push(session.hash[i]);
        i = i + 1;
        proof {
            assert(input@ =~= session.hash@.subrange(0, i as int));
        }
    }
    let mut k: usize = 0;
    while k < entry.len()
        invariant
            k <= entry@.len(),
            input@ == session.hash@ + entry@.subrange(0, k as int),
        decreases entry@.len() - k,
    {
        input.push(entry[k]);
        k = k + 1;
        proof {
            assert(input@ =~= session.hash@ + entry@.subrange(0, k as int));
        }
    }
    proof {
        assert(entry@.subrange(0, k as int) =~= entry@);
    }
    let final_hash = keccak(&input);
    settle_with_hash(&final_hash, session.slot, current_slot, attributes)
}

} // verus!
