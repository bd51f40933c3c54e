use crate::address::Address;
use crate::attributes::{attributes_view, find_value, parse_u64, parse_u64_spec, value_of, Attribute};
use crate::consts::{COLLECTION, MPL_CORE_PROGRAM_ID};
use crate::error::ProgramError;
use crate::loaders::AccountView;
use vstd::prelude::*;

verus! {

/// Who may update an item asset.
#[derive(Debug, Clone, Copy)]
pub enum UpdateAuthority {
    Absent,
    Address(Address),
    Collection(Address),
}

/// What the forge reads of an item asset: its update authority and, when the
/// asset carries one, its attribute list.
#[derive(Debug)]
pub struct AssetView {
    pub update_authority: UpdateAuthority,
    pub attributes: Option<Vec<Attribute>>,
}

/// What loading an asset yields: the error, or its durability text,
/// multiplier and resource tag.
pub open spec fn load_asset_result(info: &AccountView, asset: &AssetView) -> Result<(Seq<char>, u64, Seq<char>), ProgramError> {
    if info.owner@ != MPL_CORE_PROGRAM_ID@ {
        Err(ProgramError::InvalidAccountOwner)
    } else if info.data@.len() == 0 {
        Err(ProgramError::UninitializedAccount)
    } else if !(match asset.update_authority {
        UpdateAuthority::Collection(a) => a@ == COLLECTION@,
        _ => false,
    }) {
        Err(ProgramError::InvalidAccountData)
    } else {
        match asset.attributes {
            None => Err(ProgramError::InvalidAccountData),
            Some(list) => {
                let v = attributes_view(list@);
                match (value_of(v, "durability"@), value_of(v, "multiplier"@), value_of(v, "resource"@)) {
                    (Some(d), Some(m), Some(r)) => match parse_u64_spec(m) {
                        Some(n) => Ok((d, n, r)),
                        None => Err(ProgramError::InvalidAccountData),
                    },
                    _ => Err(ProgramError::InvalidAccountData),
                }
            },
        }
    }
}

/// Errors unless the account is an item asset of the forge's collection that
/// carries durability, multiplier and resource attributes; returns them.
pub fn load_asset(info: &AccountView, asset: &AssetView) -> (r: Result<(String, u64, String), ProgramError>)
    ensures
        match (r, load_asset_result(info, asset)) {
            (Ok((d, m, res)), Ok((sd, sm, sr))) => d@ == sd && m == sm && res@ == sr,
            (Err(e), Err(f)) => e == f,
            _ => false,
        },
{
    if !info.owner.same_as(&Address { bytes: MPL_CORE_PROGRAM_ID }) {
        return Err(ProgramError::InvalidAccountOwner);
    }
    if info.data.len() == 0 {
        return Err(ProgramError::UninitializedAccount);
    }
    match &asset.update_authority {
        UpdateAuthority::Collection(a) => {
            if !a.same_as(&Address { bytes: COLLECTION }) {
                return Err(ProgramError::InvalidAccountData);
            }
        },
        _ => return Err(ProgramError::InvalidAccountData),
    }
    let list = match &asset.attributes {
        Some(l) => l,
        None => return Err(ProgramError::InvalidAccountData),
    };
    let durability = find_value(list, "durability");
    let multiplier = find_value(list, "multiplier");
    let resource = find_value(list, "resource");
    match (durability, multiplier, resource) {
        (Some(d), Some(m), Some(res)) => match parse_u64(&m) {
            Some(n) => Ok((d, n, res)),
            None => Err(ProgramError::InvalidAccountData),
        },
        _ => Err(ProgramError::InvalidAccountData),
    }
}

} // verus!
