use crate::address::Address;
use crate::error::ProgramError;
use crate::state::u64_at;
use solana_program::program_pack::Pack;
use vstd::prelude::*;

verus! {

/// Length of a token account's data.
pub const TOKEN_ACCOUNT_LEN: usize = 165;

/// Length of a token mint's data.
pub const MINT_LEN: usize = 82;

/// The fields of a token account that the forge reads.
#[derive(Debug, Clone, Copy)]
pub struct TokenAccount {
    pub mint: Address,
    pub owner: Address,
    pub amount: u64,
}

/// Whether the four bytes at `at` are a valid optional-value tag (0 or 1, little-endian).
pub open spec fn option_tag_ok(d: Seq<u8>, at: int) -> bool {
    &&& d[at] == 0 || d[at] == 1
    &&& d[at + 1] == 0
    &&& d[at + 2] == 0
    &&& d[at + 3] == 0
}

/// Whether `d` has the shape of a token account, initialized or not.
pub open spec fn token_account_shape(d: Seq<u8>) -> bool {
    &&& d.len() == TOKEN_ACCOUNT_LEN
    &&& option_tag_ok(d, 72)
    &&& d[108] <= 2
    &&& option_tag_ok(d, 109)
    &&& option_tag_ok(d, 129)
}

/// What unpacking `d` as an initialized token account gives: the error the
/// token program reports, or the mint, owner and balance.
pub open spec fn token_account_unpack(d: Seq<u8>) -> Result<(Seq<u8>, Seq<u8>, u64), ProgramError> {
    if !token_account_shape(d) {
        Err(ProgramError::InvalidAccountData)
    } else if d[108] == 0 {
        Err(ProgramError::UninitializedAccount)
    } else {
        Ok((d.subrange(0, 32), d.subrange(32, 64), u64_at(d, 64)))
    }
}

/// Whether `d` has the shape of a mint, initialized or not.
pub open spec fn mint_shape(d: Seq<u8>) -> bool {
    &&& d.len() == MINT_LEN
    &&& option_tag_ok(d, 0)
    &&& d[45] <= 1
    &&& option_tag_ok(d, 46)
}

/// What unpacking `d` as an initialized mint gives.
pub open spec fn mint_unpack(d: Seq<u8>) -> Result<(), ProgramError> {
    if !mint_shape(d) {
        Err(ProgramError::InvalidAccountData)
    } else if d[45] == 0 {
        Err(ProgramError::UninitializedAccount)
    } else {
        Ok(())
    }
}

/// Relies on `spl_token::state::Account::unpack`: it rejects data of the wrong
/// length or with a malformed optional-field tag or state byte as invalid,
/// rejects an uninitialized account, and otherwise reads mint, owner and
/// amount from their fixed offsets.
#[verifier::external_body]
fn unpack_token_account(data: &[u8]) -> (r: Result<TokenAccount, ProgramError>)
    ensures
        match (r, token_account_unpack(data@)) {
            (Ok(a), Ok((m, o, n))) => a.mint@ == m && a.owner@ == o && a.amount == n,
            (Err(e), Err(f)) => e == f,
            _ => false,
        },
{
    match spl_token::state::Account::unpack(data) {
        Ok(a) => Ok(TokenAccount {
            mint: Address { bytes: a.mint.to_bytes() },
            owner: Address { bytes: a.owner.to_bytes() },
            amount: a.amount,
        }),
        Err(solana_program::program_error::ProgramError::UninitializedAccount) => Err(ProgramError::UninitializedAccount),
        Err(_) => Err(ProgramError::InvalidAccountData),
    }
}

/// Relies on `spl_token::state::Mint::unpack`: it rejects data of the wrong
/// length or with a malformed optional-field tag or flag byte as invalid, and
/// rejects an uninitialized mint.
#[verifier::external_body]
fn unpack_mint(data: &[u8]) -> (r: Result<(), ProgramError>)
    ensures
        r == mint_unpack(data@),
{
    match spl_token::state::Mint::unpack(data) {
        Ok(_) => Ok(()),
        Err(solana_program::program_error::ProgramError::UninitializedAccount) => Err(ProgramError::UninitializedAccount),
        Err(_) => Err(ProgramError::InvalidAccountData),
    }
}

impl TokenAccount {
    /// Reads an initialized token account.
    pub fn unpack(data: &[u8]) -> (r: Result<TokenAccount, ProgramError>)
        ensures
            match (r, token_account_unpack(data@)) {
                (Ok(a), Ok((m, o, n))) => a.mint@ == m && a.owner@ == o && a.amount == n,
                (Err(e), Err(f)) => e == f,
                _ => false,
            },
    {
        unpack_token_account(data)
    }
}

/// Checks that `data` is an initialized mint.
pub fn check_mint_data(data: &[u8]) -> (r: Result<(), ProgramError>)
    ensures
        r == mint_unpack(data@),
{
    unpack_mint(data)
}

} // verus!
