use vstd::prelude::*;

verus! {

/// Decimal places of every ingredient token.
pub const TOKEN_DECIMALS: u8 = 11;

/// One whole ingredient token in its smallest unit.
pub const ONE_TOKEN: u64 = 100_000_000_000;

/// Royalty, in basis points, attached to every collection.
pub const ROYALTIES_BASIS_POINTS: u16 = 400;

/// Multiplier attribute of a freshly crafted item.
pub const BASE_MULTIPLIER: u64 = 70;

/// Lamports moved through the collection authority by the administrative proxy transfer.
pub const VERIFY_TRANSFER_LAMPORTS: u64 = 10_000;

/// Seed of the collection authority's address.
pub const COLLECTION_AUTHORITY_SEED: [u8; 20] = [
    99, 111, 108, 108, 101, 99, 116, 105, 111, 110, 95, 97, 117, 116, 104, 111, 114, 105, 116, 121
];

/// Seed of a recipe record's address (followed by the collection's address).
pub const CONFIG_SEED: [u8; 6] = [99, 111, 110, 102, 105, 103];

/// Seed of an enhancement session's address (followed by authority and asset).
pub const ENHANCER_SEED: [u8; 8] = [101, 110, 104, 97, 110, 99, 101, 114];

/// Seed of the treasury's address.
pub const TREASURY_SEED: [u8; 8] = [116, 114, 101, 97, 115, 117, 114, 121];

/// The system program, also the owner of every unallocated account.
pub const SYSTEM_PROGRAM_ID: [u8; 32] = [
    0, 0, 0, 0, 0, 0, 0, 0, 0, 0, 0, 0, 0, 0, 0, 0, 0, 0, 0, 0, 0, 0, 0, 0, 0, 0, 0, 0, 0, 0, 0, 0
];

pub const PROGRAM_ID: [u8; 32] = [
    245, 168, 55, 120, 113, 4, 89, 245, 75, 169, 22, 122, 242, 7, 143, 54, 124, 210, 136, 122, 176, 116, 162, 149, 69, 215, 61, 66, 0, 16, 159, 126
];

pub const INITIALIZER_ADDRESS: [u8; 32] = [
    212, 143, 193, 47, 208, 82, 228, 220, 227, 237, 109, 189, 232, 127, 196, 192, 31, 217, 225, 191, 61, 42, 45, 12, 250, 0, 33, 253, 64, 208, 65, 228
];

pub const COAL_PROGRAM_ID: [u8; 32] = [
    197, 5, 109, 115, 130, 36, 61, 93, 39, 216, 115, 138, 151, 116, 7, 51, 227, 148, 38, 18, 208, 15, 29, 42, 14, 16, 41, 210, 32, 156, 204, 50
];

pub const ROYALTY_CREATOR_ADDRESS: [u8; 32] = [
    150, 94, 70, 147, 14, 3, 127, 152, 140, 211, 38, 87, 53, 159, 212, 65, 157, 162, 222, 47, 72, 247, 1, 25, 157, 71, 117, 239, 87, 241, 120, 94
];

pub const COLLECTION: [u8; 32] = [
    176, 232, 114, 138, 25, 88, 77, 150, 23, 176, 187, 251, 102, 194, 174, 28, 65, 89, 233, 153, 244, 40, 112, 187, 206, 152, 251, 174, 210, 143, 43, 5
];

pub const COAL_MINT_ADDRESS: [u8; 32] = [
    193, 234, 244, 32, 86, 41, 8, 87, 208, 229, 99, 121, 78, 46, 95, 84, 231, 199, 44, 115, 212, 104, 71, 17, 204, 160, 66, 189, 242, 194, 173, 86
];

pub const INGOT_MINT_ADDRESS: [u8; 32] = [
    96, 154, 22, 226, 85, 119, 205, 154, 215, 114, 141, 197, 37, 171, 58, 34, 48, 123, 69, 1, 2, 207, 121, 55, 0, 216, 46, 218, 102, 187, 121, 92
];

pub const WOOD_MINT_ADDRESS: [u8; 32] = [
    250, 113, 48, 32, 1, 97, 44, 106, 125, 153, 156, 63, 81, 168, 85, 118, 131, 54, 30, 140, 56, 17, 141, 103, 165, 196, 38, 6, 39, 238, 235, 223
];

pub const CHROMIUM_MINT_ADDRESS: [u8; 32] = [
    218, 243, 51, 103, 183, 19, 52, 10, 200, 87, 76, 161, 253, 223, 101, 123, 127, 248, 247, 101, 117, 145, 230, 63, 102, 94, 49, 73, 102, 2, 149, 69
];

pub const TOKEN_PROGRAM_ID: [u8; 32] = [
    6, 221, 246, 225, 215, 101, 161, 147, 217, 203, 225, 70, 206, 235, 121, 172, 28, 180, 133, 237, 95, 91, 55, 145, 58, 140, 245, 133, 126, 255, 0, 169
];

pub const ASSOCIATED_TOKEN_PROGRAM_ID: [u8; 32] = [
    140, 151, 37, 143, 78, 36, 137, 241, 187, 61, 16, 41, 20, 142, 13, 131, 11, 90, 19, 153, 218, 255, 16, 132, 4, 142, 123, 216, 219, 233, 248, 89
];

pub const MPL_CORE_PROGRAM_ID: [u8; 32] = [
    175, 84, 171, 16, 189, 151, 165, 66, 160, 158, 247, 179, 152, 137, 221, 12, 211, 148, 164, 204, 233, 223, 166, 205, 201, 126, 190, 45, 35, 91, 167, 72
];

pub const SYSVAR_PROGRAM_ID: [u8; 32] = [
    6, 167, 213, 23, 24, 117, 247, 41, 199, 61, 147, 64, 143, 33, 97, 32, 6, 126, 216, 140, 118, 224, 140, 40, 127, 193, 148, 96, 0, 0, 0, 0
];

pub const SLOT_HASHES_SYSVAR_ID: [u8; 32] = [
    6, 167, 213, 23, 25, 47, 10, 175, 198, 242, 101, 227, 251, 119, 204, 122, 218, 130, 197, 41, 208, 190, 59, 19, 110, 45, 0, 85, 32, 0, 0, 0
];

} // verus!
