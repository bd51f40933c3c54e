use crate::address::{push_address, read_address, Address};
use crate::bytes::{le_bytes, le_value, lemma_le_bytes_of_value, push_le_bytes, read_le_bytes};
use crate::error::ProgramError;
use crate::state::u64_bytes;
use vstd::prelude::*;
use vstd::utf8::{
    decode_utf8, decode_utf8_encode_utf8, encode_utf8, encode_utf8_decode_utf8, encode_utf8_valid_utf8,
    valid_utf8,
};

verus! {

/// Arguments of crafting one item.
#[derive(Debug)]
pub struct MintV1Args {
    pub resource: String,
    pub config_bump: u8,
    pub collection_authority_bump: u8,
}

/// Arguments of defining a recipe and its collection.
#[derive(Debug)]
pub struct NewV1Args {
    pub name: String,
    pub uri: String,
    pub multiplier: u64,
    pub durability: u64,
    pub ingredients: [Address; 3],
    pub amounts: [u64; 3],
    pub config_bump: u8,
    pub collection_authority_bump: u8,
}

/// Arguments of creating the treasury.
#[derive(Debug, Clone, Copy, PartialEq, Eq, Structural)]
pub struct InitializeArgs {
    pub treasury_bump: u8,
}

/// Arguments of the administrative proxy transfer.
#[derive(Debug, Clone, Copy, PartialEq, Eq, Structural)]
pub struct VerifyArgs {
    pub collection_authority_bump: u8,
}

/// Arguments of opening an enhancement session.
#[derive(Debug, Clone, Copy, PartialEq, Eq, Structural)]
pub struct InitializeEnhanceArgs {
    pub enhancer_bump: u8,
}

/// Arguments of settling an enhancement session.
#[derive(Debug, Clone, Copy, PartialEq, Eq, Structural)]
pub struct EnhanceArgs {
    pub enhancer_bump: u8,
    pub collection_authority_bump: u8,
}

/// An instruction of the program, as carried in a transaction.
#[derive(Debug)]
pub enum ForgeInstruction {
    MintV1(MintV1Args),
    NewV1(NewV1Args),
    Initialize(InitializeArgs),
    Verify(VerifyArgs),
    InitializeEnhance(InitializeEnhanceArgs),
    Enhance(EnhanceArgs),
}

/// A string on the wire: its UTF-8 length as four little-endian bytes, then
/// its UTF-8 bytes.
pub open spec fn string_encoding(s: Seq<char>) -> Seq<u8> {
    le_bytes(encode_utf8(s).len(), 4) + encode_utf8(s)
}

pub open spec fn string_fits(s: Seq<char>) -> bool {
    encode_utf8(s).len() <= u32::MAX
}

impl ForgeInstruction {
    /// The instruction's bytes: a variant tag, then the arguments in order.
    pub open spec fn spec_bytes(&self) -> Seq<u8> {
        match self {
            ForgeInstruction::MintV1(a) => seq![0u8] + string_encoding(a.resource@) + seq![
                a.config_bump,
                a.collection_authority_bump,
            ],
            ForgeInstruction::NewV1(a) => seq![1u8] + string_encoding(a.name@) + string_encoding(a.uri@)
                + u64_bytes(a.multiplier) + u64_bytes(a.durability) + a.ingredients[0]@
                + a.ingredients[1]@ + a.ingredients[2]@ + u64_bytes(a.amounts[0]) + u64_bytes(
                a.amounts[1],
            ) + u64_bytes(a.amounts[2]) + seq![a.config_bump, a.collection_authority_bump],
            ForgeInstruction::Initialize(a) => seq![2u8, a.treasury_bump],
            ForgeInstruction::Verify(a) => seq![3u8, a.collection_authority_bump],
            ForgeInstruction::InitializeEnhance(a) => seq![4u8, a.enhancer_bump],
            ForgeInstruction::Enhance(a) => seq![5u8, a.enhancer_bump, a.collection_authority_bump],
        }
    }

    /// Whether every string of the instruction fits the four-byte length prefix.
    pub open spec fn encodable(&self) -> bool {
        match self {
            ForgeInstruction::MintV1(a) => string_fits(a.resource@),
            ForgeInstruction::NewV1(a) => string_fits(a.name@) && string_fits(a.uri@),
            _ => true,
        }
    }

    /// Encodes the instruction; fails only when a string is too long for its
    /// length prefix.
    pub fn try_to_vec(&self) -> (r: Result<Vec<u8>, ProgramError>)
        ensures
            r is Ok <==> self.encodable(),
            r is Ok ==> r->Ok_0@ == self.spec_bytes(),
            r is Err ==> r == Err::<Vec<u8>, ProgramError>(ProgramError::InvalidArgument),
    {
        let mut out: Vec<u8> = Vec::new();
        match self {
            ForgeInstruction::MintV1(a) => {
                out.push(0u8);
                push_string(&mut out, &a.resource)?;
                out.push(a.config_bump);
                out.push(a.collection_authority_bump);
            },
            ForgeInstruction::NewV1(a) => {
                out.push(1u8);
                push_string(&mut out, &a.name)?;
                push_string(&mut out, &a.uri)?;
                push_le_bytes(&mut out, a.multiplier, 8);
                push_le_bytes(&mut out, a.durability, 8);
                push_address(&mut out, &a.ingredients[0]);
                push_address(&mut out, &a.ingredients[1]);
                push_address(&mut out, &a.ingredients[2]);
                push_le_bytes(&mut out, a.amounts[0], 8);
                push_le_bytes(&mut out, a.amounts[1], 8);
                push_le_bytes(&mut out, a.amounts[2], 8);
                out.push(a.config_bump);
                out.push(a.collection_authority_bump);
            },
            ForgeInstruction::Initialize(a) => {
                out.push(2u8);
                out.push(a.treasury_bump);
            },
            ForgeInstruction::Verify(a) => {
                out.push(3u8);
                out.push(a.collection_authority_bump);
            },
            ForgeInstruction::InitializeEnhance(a) => {
                out.push(4u8);
                out.push(a.enhancer_bump);
            },
            ForgeInstruction::Enhance(a) => {
                out.push(5u8);
                out.push(a.enhancer_bump);
                out.push(a.collection_authority_bump);
            },
        }
        proof {
            assert(out@ =~= self.spec_bytes());
        }
        Ok(out)
    }

    /// Decodes an instruction that occupies all of `data`. Whatever it
    /// returns encodes back to exactly `data`.
    pub fn try_from_slice(data: &[u8]) -> (r: Result<ForgeInstruction, ProgramError>)
        ensures
            r is Ok ==> r->Ok_0.spec_bytes() == data@,
            forall|i: ForgeInstruction| #[trigger] i.spec_bytes() == data@ && i.encodable() ==> r is Ok,
            r is Err ==> r == Err::<ForgeInstruction, ProgramError>(ProgramError::InvalidInstructionData),
    {
        let bad = ProgramError::InvalidInstructionData;
        let n = data.len();
        if n == 0 {
            proof {
                assert forall|i: ForgeInstruction| #[trigger] i.spec_bytes() == data@ implies false by {
                    lemma_tag(i);
                }
            }
            return Err(bad);
        }
        let tag = data[0];
        if tag == 0 {
            match decode_mint_args(data) {
                Some(args) => Ok(ForgeInstruction::MintV1(args)),
                None => {
                    proof {
                        assert forall|i: ForgeInstruction| #[trigger] i.spec_bytes() == data@ && i.encodable() implies false by {
                            lemma_tag(i);
                            if let ForgeInstruction::MintV1(a) = i {
                                assert(ForgeInstruction::MintV1(a).spec_bytes() == data@);
                            }
                        }
                    }
                    Err(bad)
                },
            }
        } else if tag == 1 {
            match decode_new_args(data) {
                Some(args) => Ok(ForgeInstruction::NewV1(args)),
                None => {
                    proof {
                        assert forall|i: ForgeInstruction| #[trigger] i.spec_bytes() == data@ && i.encodable() implies false by {
                            lemma_tag(i);
                            if let ForgeInstruction::NewV1(a) = i {
                                assert(ForgeInstruction::NewV1(a).spec_bytes() == data@);
                            }
                        }
                    }
                    Err(bad)
                },
            }
        } else if tag == 2 && n == 2 {
            proof {
                assert(data@ =~= seq![2u8, data@[1]]);
            }
            Ok(ForgeInstruction::Initialize(InitializeArgs { treasury_bump: data[1] }))
        } else if tag == 3 && n == 2 {
            proof {
                assert(data@ =~= seq![3u8, data@[1]]);
            }
            Ok(ForgeInstruction::Verify(VerifyArgs { collection_authority_bump: data[1] }))
        } else if tag == 4 && n == 2 {
            proof {
                assert(data@ =~= seq![4u8, data@[1]]);
            }
            Ok(ForgeInstruction::InitializeEnhance(InitializeEnhanceArgs { enhancer_bump: data[1] }))
        } else if tag == 5 && n == 3 {
            proof {
                assert(data@ =~= seq![5u8, data@[1], data@[2]]);
            }
            Ok(ForgeInstruction::Enhance(EnhanceArgs { enhancer_bump: data[1], collection_authority_bump: data[2] }))
        } else {
            proof {
                assert forall|i: ForgeInstruction| #[trigger] i.spec_bytes() == data@ implies false by {
                    lemma_tag(i);
                }
            }
            Err(bad)
        }
    }
}

/// The tag byte of each instruction, and the length of those without strings.
proof fn lemma_tag(i: ForgeInstruction)
    ensures
        i.spec_bytes().len() >= 1,
        match i {
            ForgeInstruction::MintV1(_) => i.spec_bytes()[0] == 0,
            ForgeInstruction::NewV1(_) => i.spec_bytes()[0] == 1,
            ForgeInstruction::Initialize(_) => i.spec_bytes()[0] == 2 && i.spec_bytes().len() == 2,
            ForgeInstruction::Verify(_) => i.spec_bytes()[0] == 3 && i.spec_bytes().len() == 2,
            ForgeInstruction::InitializeEnhance(_) => i.spec_bytes()[0] == 4 && i.spec_bytes().len() == 2,
            ForgeInstruction::Enhance(_) => i.spec_bytes()[0] == 5 && i.spec_bytes().len() == 3,
        },
{
}

/// Decodes the arguments of a craft from the bytes after the tag.
fn decode_mint_args(data: &[u8]) -> (r: Option<MintV1Args>)
    requires
        data@.len() >= 1,
        data@[0] == 0,
    ensures
        r is Some ==> ForgeInstruction::MintV1(r->Some_0).spec_bytes() == data@,
        forall|a: MintV1Args|
            #[trigger] ForgeInstruction::MintV1(a).spec_bytes() == data@ && string_fits(a.resource@) ==> r is Some,
{
    let n = data.len();
    proof {
        assert forall|a: MintV1Args|
            #[trigger] ForgeInstruction::MintV1(a).spec_bytes() == data@ && string_fits(a.resource@) implies
            encodes_string_at(data@, 1, a.resource@) && n == 1 + string_encoding(a.resource@).len() + 2 by {
            let e = string_encoding(a.resource@);
            assert(data@.subrange(1, 1 + e.len() as int) =~= e);
        }
    }
    let (resource, p) = match read_string(data, 1) {
        Some(x) => x,
        None => return None,
    };
    if n - p != 2 {
        return None;
    }
    let args = MintV1Args { resource, config_bump: data[p], collection_authority_bump: data[p + 1] };
    proof {
        assert(data@ =~= data@.subrange(0, 1) + data@.subrange(1, p as int) + data@.subrange(p as int, n as int));
        assert(ForgeInstruction::MintV1(args).spec_bytes() =~= data@);
    }
    Some(args)
}

/// Decodes the arguments of a recipe definition from the bytes after the tag.
#[verifier::rlimit(40)]
fn decode_new_args(data: &[u8]) -> (r: Option<NewV1Args>)
    requires
        data@.len() >= 1,
        data@[0] == 1,
    ensures
        r is Some ==> ForgeInstruction::NewV1(r->Some_0).spec_bytes() == data@,
        forall|a: NewV1Args|
            #[trigger] ForgeInstruction::NewV1(a).spec_bytes() == data@ && string_fits(a.name@) && string_fits(
                a.uri@,
            ) ==> r is Some,
{
    let n = data.len();
    proof {
        assert forall|a: NewV1Args|
            #[trigger] ForgeInstruction::NewV1(a).spec_bytes() == data@ && string_fits(a.name@) && string_fits(
                a.uri@,
            ) implies ({
            let q1 = 1 + string_encoding(a.name@).len() as int;
            &&& encodes_string_at(data@, 1, a.name@)
            &&& encodes_string_at(data@, q1, a.uri@)
            &&& n == q1 + string_encoding(a.uri@).len() + 138
        }) by {
            let e1 = string_encoding(a.name@);
            let e2 = string_encoding(a.uri@);
            lemma_u64_bytes_len(a.multiplier);
            lemma_u64_bytes_len(a.durability);
            lemma_u64_bytes_len(a.amounts[0]);
            lemma_u64_bytes_len(a.amounts[1]);
            lemma_u64_bytes_len(a.amounts[2]);
            assert(data@.subrange(1, 1 + e1.len() as int) =~= e1);
            assert(data@.subrange(1 + e1.len() as int, 1 + e1.len() as int + e2.len() as int) =~= e2);
        }
    }
    let (name, p1) = match read_string(data, 1) {
        Some(x) => x,
        None => return None,
    };
    let (uri, p) = match read_string(data, p1) {
        Some(x) => x,
        None => return None,
    };
    if n - p != 138 {
        return None;
    }
    let multiplier = read_le_bytes(data, p, 8);
    let durability = read_le_bytes(data, p + 8, 8);
    let i0 = read_address(data, p + 16);
    let i1 = read_address(data, p + 48);
    let i2 = read_address(data, p + 80);
    let a0 = read_le_bytes(data, p + 112, 8);
    let a1 = read_le_bytes(data, p + 120, 8);
    let a2 = read_le_bytes(data, p + 128, 8);
    let args = NewV1Args {
        name,
        uri,
        multiplier,
        durability,
        ingredients: [i0, i1, i2],
        amounts: [a0, a1, a2],
        config_bump: data[p + 136],
        collection_authority_bump: data[p + 137],
    };
    proof {
        let d = data@;
        let q = p as int;
        lemma_u64_view(d, q);
        lemma_u64_view(d, q + 8);
        lemma_u64_view(d, q + 112);
        lemma_u64_view(d, q + 120);
        lemma_u64_view(d, q + 128);
        assert(d =~= d.subrange(0, 1) + d.subrange(1, p1 as int) + d.subrange(p1 as int, q)
            + d.subrange(q, q + 8) + d.subrange(q + 8, q + 16) + d.subrange(q + 16, q + 48)
            + d.subrange(q + 48, q + 80) + d.subrange(q + 80, q + 112) + d.subrange(q + 112, q + 120)
            + d.subrange(q + 120, q + 128) + d.subrange(q + 128, q + 136) + d.subrange(q + 136, q + 138));
        assert(ForgeInstruction::NewV1(args).spec_bytes() =~= d);
    }
    Some(args)
}

proof fn lemma_u64_bytes_len(v: u64)
    ensures
        u64_bytes(v).len() == 8,
{
    crate::bytes::lemma_le_bytes_len(v as nat, 8);
}

proof fn lemma_u64_view(d: Seq<u8>, at: int)
    requires
        0 <= at,
        at + 8 <= d.len(),
    ensures
        u64_bytes(le_value(d.subrange(at, at + 8)) as u64) == d.subrange(at, at + 8),
{
    crate::bytes::lemma_le_value_bound(d.subrange(at, at + 8));
    crate::bytes::lemma_pow256_8();
    lemma_le_bytes_of_value(d.subrange(at, at + 8));
}

/// Relies on `String::from_utf8`: it accepts exactly the valid UTF-8 byte
/// strings, and yields the characters they encode.
#[verifier::external_body]
fn utf8_to_string(b: Vec<u8>) -> (r: Option<String>)
    ensures
        r is Some <==> valid_utf8(b@),
        r is Some ==> r->Some_0@ == decode_utf8(b@),
{
    String::from_utf8(b).ok()
}

/// Appends a string with its length prefix.
fn push_string(out: &mut Vec<u8>, s: &String) -> (r: Result<(), ProgramError>)
    ensures
        r is Ok <==> string_fits(s@),
        r is Ok ==> final(out)@ == old(out)@ + string_encoding(s@),
        r is Err ==> r == Err::<(), ProgramError>(ProgramError::InvalidArgument),
{
    let bytes: &[u8] = s.as_str().as_bytes();
    let len = bytes.len();
    if len > 0xffff_ffff {
        return Err(ProgramError::InvalidArgument);
    }
    push_le_bytes(out, len as u64, 4);
    let mut i: usize = 0;
    let ghost start = out@;
    while i < len
        invariant
            i <= len,
            len == bytes@.len(),
            bytes@ == encode_utf8(s@),
            out@ == start + bytes@.subrange(0, i as int),
        decreases len - i,
    {
        out.push(bytes[i]);
        i = i + 1;
        proof {
            assert(out@ =~= start + bytes@.subrange(0, i as int));
        }
    }
    proof {
        assert(bytes@.subrange(0, i as int) =~= bytes@);
    }
    Ok(())
}

/// Reads a length-prefixed string starting at `at`; returns it with the
/// position just past it.
fn read_string(data: &[u8], at: usize) -> (r: Option<(String, usize)>)
    requires
        at <= data@.len(),
    ensures
        r is Some ==> at <= r->Some_0.1 <= data@.len() && data@.subrange(at as int, r->Some_0.1 as int)
            == string_encoding(r->Some_0.0@),
        forall|t: Seq<char>|
            #[trigger] encodes_string_at(data@, at as int, t) ==> r is Some && r->Some_0.1 == at
                + string_encoding(t).len() && r->Some_0.0@ == t,
{
    let n = data.len();
    if n - at < 4 {
        proof {
            assert forall|t: Seq<char>| #[trigger] encodes_string_at(data@, at as int, t) implies false by {
                lemma_string_prefix(data@, at as int, t);
            }
        }
        return None;
    }
    let len = read_le_bytes(data, at, 4);
    if ((n - at - 4) as u64) < len {
        proof {
            assert forall|t: Seq<char>| #[trigger] encodes_string_at(data@, at as int, t) implies false by {
                lemma_string_prefix(data@, at as int, t);
            }
        }
        return None;
    }
    let start = at + 4;
    let end = start + len as usize;
    let mut bytes: Vec<u8> = Vec::new();
    let mut i: usize = start;
    while i < end
        invariant
            start <= i <= end <= n,
            n == data@.len(),
            bytes@ == data@.subrange(start as int, i as int),
        decreases end - i,
    {
        bytes.push(data[i]);
        i = i + 1;
        proof {
            assert(bytes@ =~= data@.subrange(start as int, i as int));
        }
    }
    let ghost raw = bytes@;
    let s = match utf8_to_string(bytes) {
        Some(s) => s,
        None => {
            proof {
                assert forall|t: Seq<char>| #[trigger] encodes_string_at(data@, at as int, t) implies false by {
                    lemma_string_prefix(data@, at as int, t);
                    encode_utf8_valid_utf8(t);
                }
            }
            return None;
        },
    };
    proof {
        decode_utf8_encode_utf8(raw);
        let pre = data@.subrange(at as int, start as int);
        crate::bytes::lemma_le_value_bound(pre);
        lemma_le_bytes_of_value(pre);
        assert(data@.subrange(at as int, end as int) =~= pre + raw);
        assert forall|t: Seq<char>| #[trigger] encodes_string_at(data@, at as int, t) implies end == at
            + string_encoding(t).len() && s@ == t by {
            lemma_string_prefix(data@, at as int, t);
            encode_utf8_decode_utf8(t);
        }
    }
    Some((s, end))
}

/// Whether `d` holds the encoding of the string `t` starting at `at`.
pub open spec fn encodes_string_at(d: Seq<u8>, at: int, t: Seq<char>) -> bool {
    &&& string_fits(t)
    &&& 0 <= at
    &&& at + string_encoding(t).len() <= d.len()
    &&& d.subrange(at, at + string_encoding(t).len()) == string_encoding(t)
}

proof fn lemma_string_prefix(d: Seq<u8>, at: int, t: Seq<char>)
    requires
        encodes_string_at(d, at, t),
    ensures
        at + 4 <= d.len(),
        le_value(d.subrange(at, at + 4)) == encode_utf8(t).len(),
        at + 4 + encode_utf8(t).len() <= d.len(),
        d.subrange(at + 4, at + 4 + encode_utf8(t).len()) == encode_utf8(t),
{
    let len = encode_utf8(t).len();
    reveal_with_fuel(crate::bytes::pow256, 5);
    crate::bytes::lemma_le_round_trip(len, 4);
    let e = string_encoding(t);
    assert(d.subrange(at, at + 4) =~= e.subrange(0, 4));
    assert(e.subrange(0, 4) =~= le_bytes(len, 4));
    assert(d.subrange(at + 4, at + 4 + len) =~= e.subrange(4, 4 + len as int));
    assert(e.subrange(4, 4 + len as int) =~= encode_utf8(t));
}

} // verus!
