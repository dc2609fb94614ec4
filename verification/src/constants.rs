//! Addresses, discriminators and payload layouts of the programs that a zap
//! may talk to.

use vstd::prelude::*;

verus! {

/// A 32-byte account address.
pub type Pubkey = [u8; 32];

/// Seed prefix of the zap authority.
pub const ZAP_AUTHORITY_PREFIX: [u8; 13] = [122, 97, 112, 95, 97, 117, 116, 104, 111, 114, 105, 116, 121];

/// Seed prefix of a token ledger.
pub const TOKEN_LEDGER_PREFIX: [u8; 12] = [116, 111, 107, 101, 110, 95, 108, 101, 100, 103, 101, 114];

/// One hundred percent in basis points.
pub const MAX_BASIS_POINT: u16 = 10_000;

/// In a Jupiter shared-accounts route the amount-in field sits this many
/// bytes before the end of the payload, which ends in a list of variable length.
pub const JUP_V6_SHARED_ACCOUNT_ROUTE_AMOUNT_IN_REVERSE_OFFSET: usize = 1 + 2 + 8 + 8;

/// Index of the source token account among a shared-accounts route's accounts.
pub const JUP_V6_SHARED_ACCOUNT_ROUTE_SOURCE_ACCOUNT_INDEX: usize = 3;

/// Index of the destination token account among a shared-accounts route's accounts.
pub const JUP_V6_SHARED_ACCOUNT_ROUTE_DESTINATION_ACCOUNT_INDEX: usize = 6;

/// In a Jupiter route the amount-in field sits this many bytes before the end
/// of the payload.
pub const JUP_V6_ROUTE_AMOUNT_IN_REVERSE_OFFSET: usize = 1 + 2 + 8 + 8;

/// Index of the source token account among a route's accounts.
pub const JUP_V6_ROUTE_SOURCE_ACCOUNT_INDEX: usize = 2;

/// Index of the destination token account among a route's accounts.
pub const JUP_V6_ROUTE_DESTINATION_ACCOUNT_INDEX: usize = 4;

/// Offset of the amount-in field in a DLMM swap payload.
pub const DLMM_SWAP2_AMOUNT_IN_OFFSET: u16 = 8;

/// Index of the source token account among a DLMM swap's accounts.
pub const DLMM_SWAP2_SOURCE_ACCOUNT_INDEX: usize = 4;

/// Index of the destination token account among a DLMM swap's accounts.
pub const DLMM_SWAP2_DESTINATION_ACCOUNT_INDEX: usize = 5;

/// Offset of the amount-in field in a DAMM v2 swap payload.
pub const DAMM_V2_SWAP_AMOUNT_IN_OFFSET: u16 = 8;

/// Index of the source token account among a DAMM v2 swap's accounts.
pub const DAMM_V2_SWAP_SOURCE_ACCOUNT_INDEX: usize = 2;

/// Index of the destination token account among a DAMM v2 swap's accounts.
pub const DAMM_V2_SWAP_DESTINATION_ACCOUNT_INDEX: usize = 3;

/// Discriminator of the DAMM v2 swap instruction.
pub const DAMM_V2_SWAP_DISC: [u8; 8] = [248, 198, 158, 145, 225, 117, 135, 200];

/// Discriminator of the Jupiter route instruction.
pub const JUP_V6_ROUTE_DISC: [u8; 8] = [229, 23, 203, 151, 122, 227, 173, 42];

/// Discriminator of the Jupiter shared-accounts route instruction.
pub const JUP_V6_SHARED_ACCOUNT_ROUTE_DISC: [u8; 8] = [193, 32, 155, 51, 65, 214, 156, 129];

/// Discriminator of the DLMM swap instruction.
pub const DLMM_SWAP2_DISC: [u8; 8] = [65, 75, 63, 76, 235, 91, 91, 136];

/// Discriminator of the zap-out instruction.
pub const ZAP_OUT_DISC: [u8; 8] = [155, 108, 185, 112, 104, 210, 161, 64];

/// The Jupiter aggregator program, version 6.
pub const JUP_V6: Pubkey = [
    4, 121, 213, 91, 242, 49, 192, 110,
    238, 116, 197, 110, 206, 104, 21, 7,
    253, 177, 178, 222, 163, 244, 142, 81,
    2, 177, 205, 162, 86, 188, 19, 143,
];

/// The DLMM pool program.
pub const DLMM: Pubkey = [
    4, 233, 225, 47, 188, 132, 232, 38,
    201, 50, 204, 233, 226, 100, 12, 206,
    21, 89, 12, 28, 98, 115, 176, 146,
    87, 8, 186, 59, 133, 32, 176, 188,
];

/// The DAMM v2 pool program.
pub const DAMM_V2: Pubkey = [
    9, 45, 33, 53, 101, 122, 21, 156,
    43, 135, 212, 182, 106, 112, 219, 142,
    151, 82, 56, 159, 247, 106, 175, 32,
    108, 237, 6, 58, 56, 249, 90, 237,
];

/// The zap program itself.
pub const ZAP: Pubkey = [
    14, 192, 90, 132, 140, 132, 143, 240,
    124, 106, 226, 216, 250, 190, 14, 71,
    193, 104, 118, 253, 67, 2, 150, 174,
    130, 126, 39, 78, 247, 140, 149, 83,
];

/// The mint of USDC.
pub const USDC_ADDRESS: Pubkey = [
    198, 250, 122, 243, 190, 219, 173, 58,
    61, 101, 243, 106, 171, 201, 116, 49,
    177, 187, 228, 194, 210, 246, 224, 228,
    124, 166, 2, 3, 69, 47, 93, 97,
];

/// The mint of wrapped SOL.
pub const SOL_ADDRESS: Pubkey = [
    6, 155, 136, 87, 254, 171, 129, 132,
    251, 104, 127, 99, 70, 24, 192, 53,
    218, 196, 57, 220, 26, 235, 59, 85,
    152, 160, 240, 0, 0, 0, 0, 1,
];

/// The wallet of the treasury.
pub const TREASURY: Pubkey = [
    82, 226, 115, 160, 78, 125, 198, 191,
    243, 79, 126, 140, 243, 176, 186, 54,
    68, 142, 197, 49, 254, 134, 43, 225,
    2, 38, 212, 14, 253, 114, 199, 58,
];

/// The token program.
pub const SPL_TOKEN_PROGRAM_ID: Pubkey = [
    6, 221, 246, 225, 215, 101, 161, 147,
    217, 203, 225, 70, 206, 235, 121, 172,
    28, 180, 133, 237, 95, 91, 55, 145,
    58, 140, 245, 133, 126, 255, 0, 169,
];

/// The associated-token-account program.
pub const SPL_ASSOCIATED_TOKEN_ACCOUNT_PROGRAM_ID: Pubkey = [
    140, 151, 37, 143, 78, 36, 137, 241,
    187, 61, 16, 41, 20, 142, 13, 131,
    11, 90, 19, 153, 218, 255, 16, 132,
    4, 142, 123, 216, 219, 233, 248, 89,
];

/// The treasury's associated token account for USDC.
pub const TREASURY_USDC_ADDRESS: Pubkey = [
    185, 138, 124, 156, 254, 200, 69, 7,
    89, 59, 7, 29, 70, 77, 38, 19,
    195, 205, 160, 53, 101, 24, 148, 172,
    231, 104, 29, 249, 59, 94, 20, 21,
];

/// The treasury's associated token account for wrapped SOL.
pub const TREASURY_SOL_ADDRESS: Pubkey = [
    172, 114, 71, 83, 195, 51, 46, 215,
    19, 101, 125, 19, 60, 16, 224, 118,
    93, 217, 28, 206, 39, 251, 67, 119,
    170, 1, 37, 136, 145, 240, 190, 155,
];

/// Tells whether two byte strings hold the same bytes.
pub fn same_bytes(a: &[u8], b: &[u8]) -> (r: bool)
    ensures
        r == (a@ == b@),
{
    if a.len() != b.len() {
        return false;
    }
    let mut i: usize = 0;
    while i < a.len()
        invariant
            i <= a.len(),
            a.len() == b.len(),
            forall|j: int| 0 <= j < i ==> a[j] == b[j],
        decreases a.len() - i,
    {
        if a[i] != b[i] {
            return false;
        }
        i += 1;
    }
    assert(a@ =~= b@);
    true
}

/// Tells whether two addresses are the same.
pub fn same_key(a: &Pubkey, b: &Pubkey) -> (r: bool)
    ensures
        r == (a@ == b@),
{
    same_bytes(a.as_slice(), b.as_slice())
}

} // verus!
