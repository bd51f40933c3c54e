use crate::consts::SYSTEM_PROGRAM_ID;
use vstd::prelude::*;

verus! {

/// A 32-byte account address.
#[derive(Debug, Clone, Copy, PartialEq, Eq)]
pub struct Address {
    pub bytes: [u8; 32],
}

impl View for Address {
    type V = Seq<u8>;

    open spec fn view(&self) -> Seq<u8> {
        self.bytes@
    }
}

impl Address {
    /// The address as a byte vector, for use as a seed.
    pub fn to_vec(&self) -> (r: Vec<u8>)
        ensures
            r@ == self@,
    {
        let mut out: Vec<u8> = Vec::new();
        let mut i: usize = 0;
        while i < 32
            invariant
                i <= 32,
                out@ == self@.subrange(0, i as int),
            decreases 32 - i,
        {
            out.push(self.bytes[i]);
            i = i + 1;
            proof {
                assert(out@ =~= self@.subrange(0, i as int));
            }
        }
        proof {
            assert(self@.subrange(0, 32) =~= self@);
        }
        out
    }

    /// Whether two addresses are the same.
    pub fn same_as(&self, other: &Address) -> (r: bool)
        ensures
            r == (self@ == other@),
    {
        let mut i: usize = 0;
        while i < 32
            invariant
                i <= 32,
                forall|j: int| 0 <= j < i ==> self@[j] == other@[j],
            decreases 32 - i,
        {
            if self.bytes[i] != other.bytes[i] {
                return false;
            }
            i = i + 1;
        }
        proof {
            assert(self@ =~= other@);
        }
        true
    }

    pub fn system_program() -> (r: Address)
        ensures
            r.bytes == SYSTEM_PROGRAM_ID,
    {
        Address { bytes: SYSTEM_PROGRAM_ID }
    }
}

/// The address and canonical bump that the runtime derives for `seeds`
/// under `program_id`, or `None` when no bump gives an address off the curve
/// or the seeds exceed the runtime's limits.
pub uninterp spec fn program_address(seeds: Seq<Seq<u8>>, program_id: Seq<u8>) -> Option<(Seq<u8>, u8)>;

/// Relies on `solana_program::pubkey::Pubkey::try_find_program_address`: the
/// derived address and bump are a function of the seeds and the program id.
#[verifier::external_body]
pub(crate) fn try_find_program_address(seeds: &Vec<Vec<u8>>, program_id: &Address) -> (r: Option<(Address, u8)>)
    ensures
        match r {
            Some((a, b)) => program_address(seeds.deep_view(), program_id@) == Some((a@, b)),
            None => program_address(seeds.deep_view(), program_id@) is None,
        },
{
    let parts: Vec<&[u8]> = seeds.iter().map(|s| s.as_slice()).collect();
    let id = solana_program::pubkey::Pubkey::new_from_array(program_id.bytes);
    solana_program::pubkey::Pubkey::try_find_program_address(&parts, &id)
        .map(|(k, b)| (Address { bytes: k.to_bytes() }, b))
}

/// Whether `key` with `bump` is exactly what the runtime derives from `seeds`.
pub open spec fn derives_to(seeds: Seq<Seq<u8>>, program_id: Seq<u8>, key: Seq<u8>, bump: u8) -> bool {
    program_address(seeds, program_id) == Some((key, bump))
}

/// Re-derives the address of `seeds` under `program_id` and checks the claimed
/// key and bump against it.
pub fn verify_program_address(
    key: &Address,
    seeds: &Vec<Vec<u8>>,
    bump: u8,
    program_id: &Address,
) -> (r: bool)
    ensures
        r == derives_to(seeds.deep_view(), program_id@, key@, bump),
{
    match try_find_program_address(seeds, program_id) {
        Some((a, b)) => a.same_as(key) && b == bump,
        None => false,
    }
}

/// The address the runtime derives for `seeds` under `program_id`, if any.
pub fn find_program_address(seeds: &Vec<Vec<u8>>, program_id: &Address) -> (r: Option<(Address, u8)>)
    ensures
        match r {
            Some((a, b)) => program_address(seeds.deep_view(), program_id@) == Some((a@, b)),
            None => program_address(seeds.deep_view(), program_id@) is None,
        },
{
    try_find_program_address(seeds, program_id)
}


/// Reads the address stored in `data[at..at + 32]`.
pub fn read_address(data: &[u8], at: usize) -> (r: Address)
    requires
        at + 32 <= data@.len(),
    ensures
        r@ == data@.subrange(at as int, at + 32),
{
    let n: usize = data.len();
    let mut b: [u8; 32] = [0u8; 32];
    let mut i: usize = 0;
    while i < 32
        invariant
            i <= 32,
            n == data@.len(),
            at + 32 <= n,
            forall|j: int| 0 <= j < i ==> b@[j] == data@[at + j],
        decreases 32 - i,
    {
        b[i] = data[at + i];
        i = i + 1;
    }
    proof {
        assert(b@ =~= data@.subrange(at as int, at + 32));
    }
    Address { bytes: b }
}


/// Appends the 32 bytes of `a` to `out`.
pub fn push_address(out: &mut Vec<u8>, a: &Address)
    ensures
        final(out)@ == old(out)@ + a@,
{
    let ghost start = old(out)@;
    let mut i: usize = 0;
    while i < 32
        invariant
            i <= 32,
            out@ == start + a@.subrange(0, i as int),
        decreases 32 - i,
    {
        out.push(a.bytes[i]);
        i = i + 1;
        proof {
            assert(out@ =~= start + a@.subrange(0, i as int));
        }
    }
    proof {
        assert(a@.subrange(0, 32) =~= a@);
    }
}

} // verus!
