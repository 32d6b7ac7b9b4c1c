//! Raydium V4 (legacy AMM v4) pools.
//!
//! The pool account (`AmmInfo`, 752 bytes) names its two vault token
//! accounts, their mints and the LP mint. Reserves and LP supply live on
//! those SPL accounts, which the caller passes among the remaining accounts
//! (any order; they are looked up by address). The vaults' mints are
//! checked against the mints the pool claims, so forged vaults are refused.
//! `AmmInfo` keeps no last-swap time: the snapshot reports 0 there.

pub mod offsets;

use vstd::prelude::*;

use crate::account::{first_with_key, AccountSnapshot};
use crate::pubkey::Pubkey;
use crate::scanner::adapters::{find_account_by_key, PoolData};
use crate::scanner::errors::GraveScannerError;
use crate::spl_token::{
    owned_by_token_program, spl_mint_supply, spl_token_account_fields, unpack_mint_supply,
    unpack_token_account, SPL_TOKEN_PROGRAM_ID,
};

verus! {

/// Mainnet Raydium V4 program (`675kPX9MHTjS2zt1qfr1NYHuzeLXfQM9H24wFSUt1Mp8`).
pub const PROGRAM_ID: [u8; 32] = [
    75, 217, 73, 196, 54, 2, 195, 63, 32, 119, 144, 237, 22, 163, 82, 76, 161, 185, 151, 92, 241,
    33, 162, 169, 12, 255, 236, 125, 248, 182, 138, 205,
];

/// Size of a Raydium V4 `AmmInfo` account; any other size is refused.
pub const AMM_INFO_SIZE: usize = 752;

/// The 32 bytes at `offset`.
pub open spec fn key_at(data: Seq<u8>, offset: int) -> Seq<u8> {
    data.subrange(offset, offset + 32)
}

/// Mint and amount of `account` read as an SPL token account: present only
/// when the SPL Token program owns it and its data unpacks.
pub open spec fn token_account_fields(account: AccountSnapshot) -> Option<(Seq<u8>, u64)> {
    if account.owner@ == SPL_TOKEN_PROGRAM_ID@ {
        spl_token_account_fields(account.data@)
    } else {
        None
    }
}

/// Supply of `account` read as an SPL mint: present only when the SPL
/// Token program owns it and its data unpacks.
pub open spec fn mint_account_supply(account: AccountSnapshot) -> Option<u64> {
    if account.owner@ == SPL_TOKEN_PROGRAM_ID@ {
        spl_mint_supply(account.data@)
    } else {
        None
    }
}

/// The token-account fields of the first remaining account with address `key`.
pub open spec fn vault_fields(remaining: Seq<AccountSnapshot>, key: Seq<u8>) -> Option<
    (Seq<u8>, u64),
> {
    match first_with_key(remaining, key) {
        Some(account) => token_account_fields(account),
        None => None,
    }
}

/// The mint supply of the first remaining account with address `key`.
pub open spec fn lp_mint_supply(remaining: Seq<AccountSnapshot>, key: Seq<u8>) -> Option<u64> {
    match first_with_key(remaining, key) {
        Some(account) => mint_account_supply(account),
        None => None,
    }
}

/// When a Raydium V4 pool account and the remaining accounts yield a
/// snapshot: the pool data has the `AmmInfo` size, both vaults and the LP
/// mint are present and decode as SPL accounts, and each vault holds the
/// mint the pool claims for it.
pub open spec fn raydium_v4_parses(pool_data: Seq<u8>, remaining: Seq<AccountSnapshot>) -> bool {
    &&& pool_data.len() == AMM_INFO_SIZE
    &&& vault_fields(remaining, key_at(pool_data, offsets::COIN_VAULT as int)) matches Some(
        (mint, _),
    ) && mint == key_at(pool_data, offsets::COIN_VAULT_MINT as int)
    &&& vault_fields(remaining, key_at(pool_data, offsets::PC_VAULT as int)) matches Some(
        (mint, _),
    ) && mint == key_at(pool_data, offsets::PC_VAULT_MINT as int)
    &&& lp_mint_supply(remaining, key_at(pool_data, offsets::LP_MINT as int)) is Some
}

/// What a successful parse reports: no last-swap time, the mints `AmmInfo`
/// names, the vaults' token amounts as reserves and the LP mint's supply.
pub open spec fn raydium_v4_snapshot(
    pool: PoolData,
    pool_data: Seq<u8>,
    remaining: Seq<AccountSnapshot>,
) -> bool {
    &&& pool.last_swap_unix_ts == 0
    &&& pool.base_mint@ == key_at(pool_data, offsets::COIN_VAULT_MINT as int)
    &&& pool.quote_mint@ == key_at(pool_data, offsets::PC_VAULT_MINT as int)
    &&& pool.lp_mint@ == key_at(pool_data, offsets::LP_MINT as int)
    &&& vault_fields(remaining, key_at(pool_data, offsets::COIN_VAULT as int)) == Some(
        (pool.base_mint@, pool.base_reserve),
    )
    &&& vault_fields(remaining, key_at(pool_data, offsets::PC_VAULT as int)) == Some(
        (pool.quote_mint@, pool.quote_reserve),
    )
    &&& lp_mint_supply(remaining, key_at(pool_data, offsets::LP_MINT as int)) == Some(
        pool.lp_supply,
    )
}

/// Reads the address stored at `offset` in `data`.
pub fn read_pubkey(data: &[u8], offset: usize) -> (res: Result<Pubkey, GraveScannerError>)
    requires
        offset + 32 <= usize::MAX,
    ensures
        res is Ok <==> offset + 32 <= data@.len(),
        res matches Ok(key) ==> key@ == key_at(data@, offset as int),
        res is Err ==> res == Err::<Pubkey, GraveScannerError>(GraveScannerError::PoolDataParseError),
{
    if data.len() < offset + 32 {
        return Err(GraveScannerError::PoolDataParseError);
    }
    let mut buf = [0u8; 32];
    let mut i: usize = 0;
    while i < 32
        invariant
            0 <= i <= 32,
            offset + 32 <= data@.len(),
            offset + 32 <= usize::MAX,
            buf@.len() == 32,
            forall|j: int| 0 <= j < i ==> buf@[j] == data@[offset + j],
        decreases 32 - i,
    {
        buf[i] = data[offset + i];
        i = i + 1;
    }
    let key = Pubkey::new_from_array(buf);
    assert(key@ =~= key_at(data@, offset as int));
    Ok(key)
}

/// Reads `account` as an SPL token account, checking its owner first as
/// Anchor's `Account::try_from` does.
fn token_account(account: &AccountSnapshot) -> (res: Option<(Pubkey, u64)>)
    ensures
        res is Some <==> token_account_fields(*account) is Some,
        res matches Some((mint, amount)) ==> token_account_fields(*account) == Some(
            (mint@, amount),
        ),
{
    if !owned_by_token_program(&account.owner) {
        return None;
    }
    unpack_token_account(account.data.as_slice())
}

/// Reads `account` as an SPL mint's supply, checking its owner first.
fn mint_supply(account: &AccountSnapshot) -> (res: Option<u64>)
    ensures
        res == mint_account_supply(*account),
{
    if !owned_by_token_program(&account.owner) {
        return None;
    }
    unpack_mint_supply(account.data.as_slice())
}

/// Parses a Raydium V4 pool account into a pool snapshot.
///
/// Every refusal is `PoolDataParseError`. On success the reserves are the
/// vaults' token amounts, the LP supply is the LP mint's supply, and the
/// mints are the ones `AmmInfo` names.
pub fn parse(pool_account: &AccountSnapshot, remaining_accounts: &[AccountSnapshot]) -> (res:
    Result<PoolData, GraveScannerError>)
    ensures
        res is Ok <==> raydium_v4_parses(pool_account.data@, remaining_accounts@),
        res is Err ==> res == Err::<PoolData, GraveScannerError>(GraveScannerError::PoolDataParseError),
        res matches Ok(pool) ==> raydium_v4_snapshot(pool, pool_account.data@, remaining_accounts@),
{
    let data = pool_account.data.as_slice();
    if data.len() != AMM_INFO_SIZE {
        return Err(GraveScannerError::PoolDataParseError);
    }
    let coin_vault = read_pubkey(data, offsets::COIN_VAULT)?;
    let pc_vault = read_pubkey(data, offsets::PC_VAULT)?;
    let coin_vault_mint = read_pubkey(data, offsets::COIN_VAULT_MINT)?;
    let pc_vault_mint = read_pubkey(data, offsets::PC_VAULT_MINT)?;
    let lp_mint = read_pubkey(data, offsets::LP_MINT)?;

    let coin_vault_info = find_account_by_key(remaining_accounts, &coin_vault)?;
    let pc_vault_info = find_account_by_key(remaining_accounts, &pc_vault)?;
    let lp_mint_info = find_account_by_key(remaining_accounts, &lp_mint)?;

    let (coin_mint, coin_amount) = match token_account(coin_vault_info) {
        Some(fields) => fields,
        None => {
            return Err(GraveScannerError::PoolDataParseError);
        },
    };
    let (pc_mint, pc_amount) = match token_account(pc_vault_info) {
        Some(fields) => fields,
        None => {
            return Err(GraveScannerError::PoolDataParseError);
        },
    };
    let lp_supply = match mint_supply(lp_mint_info) {
        Some(supply) => supply,
        None => {
            return Err(GraveScannerError::PoolDataParseError);
        },
    };

    if !coin_mint.same_as(&coin_vault_mint) {
        return Err(GraveScannerError::PoolDataParseError);
    }
    if !pc_mint.same_as(&pc_vault_mint) {
        return Err(GraveScannerError::PoolDataParseError);
    }

    Ok(
        PoolData {
            last_swap_unix_ts: 0,
            base_reserve: coin_amount,
            quote_reserve: pc_amount,
            lp_supply: lp_supply,
            base_mint: coin_vault_mint,
            quote_mint: pc_vault_mint,
            lp_mint: lp_mint,
        },
    )
}

} // verus!
