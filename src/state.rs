use crate::address::{push_address, read_address, Address};
use crate::bytes::{
    le_bytes, le_value, lemma_le_bytes_of_value, lemma_le_round_trip, lemma_pow256_8, push_u64_le,
    read_u64_le,
};
use crate::error::ProgramError;
use vstd::prelude::*;

verus! {

/// The tag in the first byte of every record the program owns.
#[derive(Debug, Clone, Copy, PartialEq, Eq, Structural)]
pub enum AccountDiscriminator {
    Config,
    Treasury,
    Enhancer,
    Item,
}

impl AccountDiscriminator {
    pub open spec fn spec_to_u8(self) -> u8 {
        match self {
            AccountDiscriminator::Config => 100,
            AccountDiscriminator::Treasury => 101,
            AccountDiscriminator::Enhancer => 102,
            AccountDiscriminator::Item => 103,
        }
    }

    /// The tag byte.
    pub fn to_u8(&self) -> (r: u8)
        ensures
            r == self.spec_to_u8(),
    {
        match self {
            AccountDiscriminator::Config => 100,
            AccountDiscriminator::Treasury => 101,
            AccountDiscriminator::Enhancer => 102,
            AccountDiscriminator::Item => 103,
        }
    }

    /// The record kind a tag byte names; unknown tags are rejected.
    pub fn try_from_u8(b: u8) -> (r: Result<AccountDiscriminator, ProgramError>)
        ensures
            match r {
                Ok(d) => d.spec_to_u8() == b,
                Err(e) => e == ProgramError::InvalidAccountData && (b < 100 || b > 103),
            },
    {
        if b == 100 {
            Ok(AccountDiscriminator::Config)
        } else if b == 101 {
            Ok(AccountDiscriminator::Treasury)
        } else if b == 102 {
            Ok(AccountDiscriminator::Enhancer)
        } else if b == 103 {
            Ok(AccountDiscriminator::Item)
        } else {
            Err(ProgramError::InvalidAccountData)
        }
    }
}

/// The eight bytes that precede a record's fields: the tag byte and seven
/// bytes of padding.
pub open spec fn header(tag: u8) -> Seq<u8> {
    seq![tag, 0u8, 0u8, 0u8, 0u8, 0u8, 0u8, 0u8]
}

fn push_header(out: &mut Vec<u8>, tag: u8)
    ensures
        final(out)@ == old(out)@ + header(tag),
{
    out.push(tag);
    let mut i: usize = 1;
    while i < 8
        invariant
            1 <= i <= 8,
            out@ == old(out)@ + header(tag).subrange(0, i as int),
        decreases 8 - i,
    {
        out.push(0u8);
        i = i + 1;
        proof {
            assert(out@ =~= old(out)@ + header(tag).subrange(0, i as int));
        }
    }
    proof {
        assert(header(tag).subrange(0, 8) =~= header(tag));
    }
}

pub open spec fn u64_bytes(v: u64) -> Seq<u8> {
    le_bytes(v as nat, 8)
}

pub open spec fn u64_at(data: Seq<u8>, at: int) -> u64 {
    le_value(data.subrange(at, at + 8)) as u64
}

proof fn lemma_u64_bytes(v: u64)
    ensures
        u64_bytes(v).len() == 8,
        le_value(u64_bytes(v)) == v as nat,
{
    lemma_pow256_8();
    lemma_le_round_trip(v as nat, 8);
}

proof fn lemma_u64_at(data: Seq<u8>, at: int)
    requires
        0 <= at,
        at + 8 <= data.len(),
    ensures
        u64_at(data, at) as nat == le_value(data.subrange(at, at + 8)),
        u64_bytes(u64_at(data, at)) == data.subrange(at, at + 8),
{
    crate::bytes::lemma_le_value_bound(data.subrange(at, at + 8));
    lemma_pow256_8();
    lemma_le_bytes_of_value(data.subrange(at, at + 8));
}

/// A recipe: the three ingredient slots consumed to craft one item.
/// A slot with a zero amount is inert.
#[derive(Debug, Clone, Copy)]
pub struct Config {
    pub amounts: [u64; 3],
    pub ingredients: [Address; 3],
}

/// Length of a recipe record, header included.
pub const CONFIG_LEN: usize = 128;

impl Config {
    pub fn discriminator() -> (r: u8)
        ensures
            r == 100,
    {
        AccountDiscriminator::Config.to_u8()
    }

    pub open spec fn spec_bytes(&self) -> Seq<u8> {
        header(100) + u64_bytes(self.amounts[0]) + u64_bytes(self.amounts[1]) + u64_bytes(
            self.amounts[2],
        ) + self.ingredients[0]@ + self.ingredients[1]@ + self.ingredients[2]@
    }

    /// Whether `data` holds exactly this record.
    pub open spec fn decodes_from(&self, data: Seq<u8>) -> bool {
        &&& self.amounts[0] == u64_at(data, 8)
        &&& self.amounts[1] == u64_at(data, 16)
        &&& self.amounts[2] == u64_at(data, 24)
        &&& self.ingredients[0]@ == data.subrange(32, 64)
        &&& self.ingredients[1]@ == data.subrange(64, 96)
        &&& self.ingredients[2]@ == data.subrange(96, 128)
    }

    /// The record as stored: tag, padding, then the fields in order.
    pub fn to_bytes(&self) -> (r: Vec<u8>)
        ensures
            r@ == self.spec_bytes(),
            r@.len() == CONFIG_LEN,
    {
        let mut out: Vec<u8> = Vec::new();
        push_header(&mut out, 100);
        push_u64_le(&mut out, self.amounts[0]);
        push_u64_le(&mut out, self.amounts[1]);
        push_u64_le(&mut out, self.amounts[2]);
        push_address(&mut out, &self.ingredients[0]);
        push_address(&mut out, &self.ingredients[1]);
        push_address(&mut out, &self.ingredients[2]);
        proof {
            lemma_u64_bytes(self.amounts[0]);
            lemma_u64_bytes(self.amounts[1]);
            lemma_u64_bytes(self.amounts[2]);
            assert(out@ =~= self.spec_bytes());
        }
        out
    }

    /// Reads a recipe record; the length and the tag must match.
    pub fn try_from_bytes(data: &[u8]) -> (r: Result<Config, ProgramError>)
        ensures
            match r {
                Ok(c) => data@.len() == CONFIG_LEN && data@[0] == 100 && c.decodes_from(data@),
                Err(e) => e == ProgramError::InvalidAccountData && !(data@.len() == CONFIG_LEN
                    && data@[0] == 100),
            },
    {
        if data.len() != CONFIG_LEN || data[0] != 100 {
            return Err(ProgramError::InvalidAccountData);
        }
        let a0 = read_u64_le(data, 8);
        let a1 = read_u64_le(data, 16);
        let a2 = read_u64_le(data, 24);
        let i0 = read_address(data, 32);
        let i1 = read_address(data, 64);
        let i2 = read_address(data, 96);
        Ok(Config { amounts: [a0, a1, a2], ingredients: [i0, i1, i2] })
    }
}

/// Decoding a recipe's stored bytes gives the same recipe back.
pub proof fn lemma_config_round_trip(c: Config)
    ensures
        c.spec_bytes().len() == CONFIG_LEN,
        c.spec_bytes()[0] == 100,
        c.decodes_from(c.spec_bytes()),
{
    let b = c.spec_bytes();
    lemma_u64_bytes(c.amounts[0]);
    lemma_u64_bytes(c.amounts[1]);
    lemma_u64_bytes(c.amounts[2]);
    assert(b.subrange(8, 16) =~= u64_bytes(c.amounts[0]));
    assert(b.subrange(16, 24) =~= u64_bytes(c.amounts[1]));
    assert(b.subrange(24, 32) =~= u64_bytes(c.amounts[2]));
    assert(b.subrange(32, 64) =~= c.ingredients[0]@);
    assert(b.subrange(64, 96) =~= c.ingredients[1]@);
    assert(b.subrange(96, 128) =~= c.ingredients[2]@);
}

/// An enhancement session: who may settle it, the tick after which it may
/// settle, and the entropy committed when it was opened.
#[derive(Debug, Clone, Copy)]
pub struct Enhancer {
    pub authority: Address,
    pub slot: u64,
    pub hash: [u8; 32],
}

/// Length of a session record, header included.
pub const ENHANCER_LEN: usize = 80;

impl Enhancer {
    pub fn discriminator() -> (r: u8)
        ensures
            r == 102,
    {
        AccountDiscriminator::Enhancer.to_u8()
    }

    pub open spec fn spec_bytes(&self) -> Seq<u8> {
        header(102) + self.authority@ + u64_bytes(self.slot) + self.hash@
    }

    /// Whether `data` holds exactly this record.
    pub open spec fn decodes_from(&self, data: Seq<u8>) -> bool {
        &&& self.authority@ == data.subrange(8, 40)
        &&& self.slot == u64_at(data, 40)
        &&& self.hash@ == data.subrange(48, 80)
    }

    /// The record as stored: tag, padding, then the fields in order.
    pub fn to_bytes(&self) -> (r: Vec<u8>)
        ensures
            r@ == self.spec_bytes(),
            r@.len() == ENHANCER_LEN,
    {
        let mut out: Vec<u8> = Vec::new();
        push_header(&mut out, 102);
        push_address(&mut out, &self.authority);
        push_u64_le(&mut out, self.slot);
        push_address(&mut out, &Address { bytes: self.hash });
        proof {
            lemma_u64_bytes(self.slot);
            assert(out@ =~= self.spec_bytes());
        }
        out
    }

    /// Reads a session record; the length and the tag must match.
    pub fn try_from_bytes(data: &[u8]) -> (r: Result<Enhancer, ProgramError>)
        ensures
            match r {
                Ok(e) => data@.len() == ENHANCER_LEN && data@[0] == 102 && e.decodes_from(data@),
                Err(e) => e == ProgramError::InvalidAccountData && !(data@.len() == ENHANCER_LEN
                    && data@[0] == 102),
            },
    {
        if data.len() != ENHANCER_LEN || data[0] != 102 {
            return Err(ProgramError::InvalidAccountData);
        }
        let authority = read_address(data, 8);
        let slot = read_u64_le(data, 40);
        let hash = read_address(data, 48);
        Ok(Enhancer { authority, slot, hash: hash.bytes })
    }
}

/// Decoding a session's stored bytes gives the same session back.
pub proof fn lemma_enhancer_round_trip(e: Enhancer)
    ensures
        e.spec_bytes().len() == ENHANCER_LEN,
        e.spec_bytes()[0] == 102,
        e.decodes_from(e.spec_bytes()),
{
    let b = e.spec_bytes();
    lemma_u64_bytes(e.slot);
    assert(b.subrange(8, 40) =~= e.authority@);
    assert(b.subrange(40, 48) =~= u64_bytes(e.slot));
    assert(b.subrange(48, 80) =~= e.hash@);
}

/// The singleton treasury: a record with no fields of its own.
#[derive(Debug, Clone, Copy)]
pub struct Treasury {}

/// Length of the treasury record, header included.
pub const TREASURY_LEN: usize = 8;

impl Treasury {
    pub fn discriminator() -> (r: u8)
        ensures
            r == 101,
    {
        AccountDiscriminator::Treasury.to_u8()
    }

    pub fn to_bytes(&self) -> (r: Vec<u8>)
        ensures
            r@ == header(101),
    {
        let mut out: Vec<u8> = Vec::new();
        push_header(&mut out, 101);
        proof {
            assert(out@ =~= header(101));
        }
        out
    }
}

/// The remaining durability of an item.
#[derive(Debug, Clone, Copy, PartialEq, Eq, Structural)]
pub struct Item {
    pub durability: u64,
}

impl Item {
    pub fn discriminator() -> (r: u8)
        ensures
            r == 103,
    {
        AccountDiscriminator::Item.to_u8()
    }

    pub open spec fn spec_bytes(&self) -> Seq<u8> {
        header(103) + u64_bytes(self.durability)
    }

    pub fn to_bytes(&self) -> (r: Vec<u8>)
        ensures
            r@ == self.spec_bytes(),
    {
        let mut out: Vec<u8> = Vec::new();
        push_header(&mut out, 103);
        push_u64_le(&mut out, self.durability);
        out
    }

    /// Reads an item record; the length and the tag must match.
    pub fn try_from_bytes(data: &[u8]) -> (r: Result<Item, ProgramError>)
        ensures
            match r {
                Ok(i) => data@.len() == 16 && data@[0] == 103 && i.durability == u64_at(data@, 8),
                Err(e) => e == ProgramError::InvalidAccountData && !(data@.len() == 16 && data@[0]
                    == 103),
            },
    {
        if data.len() != 16 || data[0] != 103 {
            return Err(ProgramError::InvalidAccountData);
        }
        Ok(Item { durability: read_u64_le(data, 8) })
    }
}

/// Decoding an item's stored bytes gives the same item back.
pub proof fn lemma_item_round_trip(i: Item)
    ensures
        i.spec_bytes().len() == 16,
        i.spec_bytes()[0] == 103,
        u64_at(i.spec_bytes(), 8) == i.durability,
{
    lemma_u64_bytes(i.durability);
    assert(i.spec_bytes().subrange(8, 16) =~= u64_bytes(i.durability));
}

/// Event data describing a crafted item: the new asset and its collection.
#[derive(Debug, Clone, Copy)]
pub struct CraftEvent {
    pub mint: Address,
    pub collection: Address,
}

impl CraftEvent {
    /// The event's bytes: the two addresses in order.
    pub fn to_bytes(&self) -> (r: Vec<u8>)
        ensures
            r@ == self.mint@ + self.collection@,
    {
        let mut out: Vec<u8> = Vec::new();
        push_address(&mut out, &self.mint);
        push_address(&mut out, &self.collection);
        proof {
            assert(out@ =~= self.mint@ + self.collection@);
        }
        out
    }
}

} // verus!
