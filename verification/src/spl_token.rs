//! SPL Token account and mint decoding, done by `anchor_spl`.

use vstd::prelude::*;

use crate::pubkey::Pubkey;

verus! {

/// Address of the SPL Token program
/// (`TokenkegQfeZyiNwAJbNbGKPFXCWuBvf9Ss623VQ5DA`), the owner of every
/// token account and mint.
pub const SPL_TOKEN_PROGRAM_ID: [u8; 32] = [
    6, 221, 246, 225, 215, 101, 161, 147, 217, 203, 225, 70, 206, 235, 121, 172, 28, 180, 133, 237,
    95, 91, 55, 145, 58, 140, 245, 133, 126, 255, 0, 169,
];

/// Size of a packed SPL token account.
pub const TOKEN_ACCOUNT_LEN: usize = 165;

/// Size of a packed SPL mint.
pub const MINT_LEN: usize = 82;

/// The little-endian value of a byte sequence.
pub open spec fn le_u64(bytes: Seq<u8>) -> int
    decreases bytes.len(),
{
    if bytes.len() == 0 {
        0
    } else {
        bytes[0] + 256 * le_u64(bytes.drop_first())
    }
}

/// The four-byte option tag at `at` is `[0, 0, 0, 0]` (none) or
/// `[1, 0, 0, 0]` (some), the only tags SPL Token accepts.
pub open spec fn option_tag_valid(data: Seq<u8>, at: int) -> bool {
    &&& data[at] == 0 || data[at] == 1
    &&& data[at + 1] == 0
    &&& data[at + 2] == 0
    &&& data[at + 3] == 0
}

/// SPL Token's `Account::unpack` accepts `data`: 165 bytes, valid option
/// tags for the delegate (72), the native reserve (109) and the close
/// authority (129), and a state byte (108) of initialised (1) or frozen (2).
pub open spec fn token_account_unpacks(data: Seq<u8>) -> bool {
    &&& data.len() == TOKEN_ACCOUNT_LEN
    &&& option_tag_valid(data, 72)
    &&& option_tag_valid(data, 109)
    &&& option_tag_valid(data, 129)
    &&& data[108] == 1 || data[108] == 2
}

/// The mint (bytes 0..32) and amount (little-endian, bytes 64..72) of an
/// SPL token account, where its bytes unpack.
pub open spec fn spl_token_account_fields(data: Seq<u8>) -> Option<(Seq<u8>, u64)> {
    if token_account_unpacks(data) {
        Some((data.subrange(0, 32), le_u64(data.subrange(64, 72)) as u64))
    } else {
        None
    }
}

/// SPL Token's `Mint::unpack` accepts `data`: 82 bytes, valid option tags
/// for the mint authority (0) and the freeze authority (46), and an
/// initialised flag (45) of exactly 1.
pub open spec fn mint_unpacks(data: Seq<u8>) -> bool {
    &&& data.len() == MINT_LEN
    &&& option_tag_valid(data, 0)
    &&& option_tag_valid(data, 46)
    &&& data[45] == 1
}

/// The supply (little-endian, bytes 36..44) of an SPL mint, where its bytes
/// unpack.
pub open spec fn spl_mint_supply(data: Seq<u8>) -> Option<u64> {
    if mint_unpacks(data) {
        Some(le_u64(data.subrange(36, 44)) as u64)
    } else {
        None
    }
}

/// Compares `owner` with `anchor_spl::token::ID`, the SPL Token program's
/// address. Claimed: that address is `SPL_TOKEN_PROGRAM_ID`.
#[verifier::external_body]
pub(crate) fn owned_by_token_program(owner: &Pubkey) -> (res: bool)
    ensures
        res == (owner@ == SPL_TOKEN_PROGRAM_ID@),
{
    anchor_lang::prelude::Pubkey::new_from_array(owner.0) == anchor_spl::token::ID
}

/// Deserialises `data` through `<anchor_spl::token::TokenAccount as
/// AccountDeserialize>::try_deserialize`, that is SPL Token's
/// `Account::unpack`. Claimed: it succeeds exactly on the bytes
/// `token_account_unpacks` describes, giving the account's mint and amount.
#[verifier::external_body]
pub(crate) fn unpack_token_account(data: &[u8]) -> (res: Option<(Pubkey, u64)>)
    ensures
        res is Some <==> spl_token_account_fields(data@) is Some,
        res matches Some((mint, amount)) ==> spl_token_account_fields(data@) == Some(
            (mint@, amount),
        ),
{
    let mut buf: &[u8] = data;
    match <anchor_spl::token::TokenAccount as anchor_lang::AccountDeserialize>::try_deserialize(
        &mut buf,
    ) {
        Ok(account) => Some((Pubkey(account.mint.to_bytes()), account.amount)),
        Err(_) => None,
    }
}

/// Deserialises `data` through `<anchor_spl::token::Mint as
/// AccountDeserialize>::try_deserialize`, that is SPL Token's
/// `Mint::unpack`. Claimed: it succeeds exactly on the bytes `mint_unpacks`
/// describes, giving the mint's supply.
#[verifier::external_body]
pub(crate) fn unpack_mint_supply(data: &[u8]) -> (res: Option<u64>)
    ensures
        res == spl_mint_supply(data@),
{
    let mut buf: &[u8] = data;
    match <anchor_spl::token::Mint as anchor_lang::AccountDeserialize>::try_deserialize(&mut buf) {
        Ok(mint) => Some(mint.supply),
        Err(_) => None,
    }
}

} // verus!
