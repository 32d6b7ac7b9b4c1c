//! AMM-pool and locker adapters. Each AMM adapter turns a vendor-specific
//! pool account (plus the vault and LP-mint accounts passed alongside it)
//! into the AMM-agnostic `PoolData` the criteria evaluator reads.

pub mod locker;
pub mod meteora;
pub mod orca_whirlpool;
pub mod pumpswap;
pub mod raydium_clmm;
pub mod raydium_v4;

use vstd::prelude::*;

use crate::account::{
    first_with_key, has_key, is_first_with_key, lemma_first_with_key_unique, AccountSnapshot,
};
use crate::pubkey::Pubkey;
use crate::scanner::errors::GraveScannerError;

verus! {

/// The factor `2^64` of Q64.64 fixed point.
pub const Q64: u128 = 0x1_0000_0000_0000_0000;

/// AMM-agnostic snapshot of a pool at evaluation time.
#[derive(Clone, Copy, Debug, PartialEq, Eq)]
pub struct PoolData {
    /// Unix time of the last swap (0 where the AMM does not record it).
    pub last_swap_unix_ts: i64,
    /// Base-side reserves (the measured token).
    pub base_reserve: u64,
    /// Quote-side reserves (lamports of SOL or base units of USDC).
    pub quote_reserve: u64,
    /// Outstanding LP token supply (Criterion 4).
    pub lp_supply: u64,
    /// Mint of the base token.
    pub base_mint: Pubkey,
    /// Mint of the quote token.
    pub quote_mint: Pubkey,
    /// LP mint, for the Criterion 5 locker check.
    pub lp_mint: Pubkey,
}

/// Quote-per-base price in Q64.64: `floor(quote * 2^64 / base)`.
pub open spec fn price_q64x64(base_reserve: u64, quote_reserve: u64) -> int {
    (quote_reserve as int) * (Q64 as int) / (base_reserve as int)
}

impl PoolData {
    /// Current price as quote-per-base in Q64.64; a pool without base
    /// reserves has no price and is refused with `MathOverflow`.
    pub fn current_price_q64x64(&self) -> (res: Result<u128, GraveScannerError>)
        ensures
            self.base_reserve == 0 ==> res == Err::<u128, GraveScannerError>(
                GraveScannerError::MathOverflow,
            ),
            self.base_reserve > 0 ==> (res matches Ok(p) && p == price_q64x64(
                self.base_reserve,
                self.quote_reserve,
            )),
            res matches Ok(p) ==> p * self.base_reserve <= self.quote_reserve * Q64 < (p + 1)
                * self.base_reserve,
    {
        if self.base_reserve == 0 {
            return Err(GraveScannerError::MathOverflow);
        }
        assert((self.quote_reserve as int) * (Q64 as int) <= u128::MAX) by (nonlinear_arith)
            requires
                self.quote_reserve <= u64::MAX,
                Q64 == 0x1_0000_0000_0000_0000u128,
        ;
        let scaled = (self.quote_reserve as u128) * Q64;
        let p = scaled / (self.base_reserve as u128);
        proof {
            let b = self.base_reserve as int;
            let x = scaled as int;
            vstd::arithmetic::div_mod::lemma_fundamental_div_mod(x, b);
            assert(p * b <= x < (p + 1) * b) by (nonlinear_arith)
                requires
                    x == b * (x / b) + x % b,
                    0 <= x % b < b,
                    p == x / b,
            ;
        }
        Ok(p)
    }
}

/// The AMM programs the scanner knows.
#[derive(Clone, Copy, Debug, PartialEq, Eq, Structural)]
pub enum AmmProgram {
    RaydiumV4,
    RaydiumClmm,
    OrcaWhirlpool,
    PumpSwap,
    Meteora,
}

/// The known AMM that owns an account, by the owner's address, checked in
/// dispatch order.
pub open spec fn amm_program_of(owner: Seq<u8>) -> Option<AmmProgram> {
    if owner == raydium_v4::PROGRAM_ID@ {
        Some(AmmProgram::RaydiumV4)
    } else if owner == raydium_clmm::PROGRAM_ID@ {
        Some(AmmProgram::RaydiumClmm)
    } else if owner == orca_whirlpool::PROGRAM_ID@ {
        Some(AmmProgram::OrcaWhirlpool)
    } else if owner == pumpswap::PROGRAM_ID@ {
        Some(AmmProgram::PumpSwap)
    } else if owner == meteora::PROGRAM_ID@ {
        Some(AmmProgram::Meteora)
    } else {
        None
    }
}

/// Whether extraction succeeds: the pool is the expected one, Raydium V4
/// owns it, and its accounts parse.
pub open spec fn pool_data_extracts(
    pool_account: AccountSnapshot,
    expected_pool_address: Seq<u8>,
    remaining: Seq<AccountSnapshot>,
) -> bool {
    &&& pool_account.key@ == expected_pool_address
    &&& amm_program_of(pool_account.owner@) == Some(AmmProgram::RaydiumV4)
    &&& raydium_v4::raydium_v4_parses(pool_account.data@, remaining)
}

/// The error extraction reports when it fails: a pool other than the
/// expected one, or one no known AMM owns, is unsupported; a known AMM
/// without a parser is unimplemented; a Raydium V4 pool that does not
/// parse is malformed.
pub open spec fn pool_data_extraction_error(
    pool_account: AccountSnapshot,
    expected_pool_address: Seq<u8>,
) -> GraveScannerError {
    if pool_account.key@ != expected_pool_address {
        GraveScannerError::UnsupportedAmm
    } else {
        match amm_program_of(pool_account.owner@) {
            Some(AmmProgram::RaydiumV4) => GraveScannerError::PoolDataParseError,
            Some(_) => GraveScannerError::AmmAdapterUnimplemented,
            None => GraveScannerError::UnsupportedAmm,
        }
    }
}

/// Parses a pool account into `PoolData`, dispatching on its owning
/// program. The pool must be the expected address.
pub fn extract_pool_data(
    pool_account: &AccountSnapshot,
    expected_pool_address: &Pubkey,
    remaining_accounts: &[AccountSnapshot],
) -> (res: Result<PoolData, GraveScannerError>)
    ensures
        res is Ok <==> pool_data_extracts(*pool_account, expected_pool_address@, remaining_accounts@),
        res is Err ==> res == Err::<PoolData, GraveScannerError>(
            pool_data_extraction_error(*pool_account, expected_pool_address@),
        ),
        res matches Ok(pool) ==> raydium_v4::raydium_v4_snapshot(
            pool,
            pool_account.data@,
            remaining_accounts@,
        ),
{
    if !pool_account.key.same_as(expected_pool_address) {
        return Err(GraveScannerError::UnsupportedAmm);
    }
    let owner = &pool_account.owner;
    if owner.same_as(&Pubkey(raydium_v4::PROGRAM_ID)) {
        raydium_v4::parse(pool_account, remaining_accounts)
    } else if owner.same_as(&Pubkey(raydium_clmm::PROGRAM_ID)) {
        raydium_clmm::parse(pool_account, remaining_accounts)
    } else if owner.same_as(&Pubkey(orca_whirlpool::PROGRAM_ID)) {
        orca_whirlpool::parse(pool_account, remaining_accounts)
    } else if owner.same_as(&Pubkey(pumpswap::PROGRAM_ID)) {
        pumpswap::parse(pool_account, remaining_accounts)
    } else if owner.same_as(&Pubkey(meteora::PROGRAM_ID)) {
        meteora::parse(pool_account, remaining_accounts)
    } else {
        Err(GraveScannerError::UnsupportedAmm)
    }
}

/// Finds the first account in `accounts` whose address is `key`; a missing
/// account is a malformed pool.
pub fn find_account_by_key<'a>(accounts: &'a [AccountSnapshot], key: &Pubkey) -> (res: Result<
    &'a AccountSnapshot,
    GraveScannerError,
>)
    ensures
        res is Err <==> !has_key(accounts@, key@),
        res is Err ==> res == Err::<&AccountSnapshot, GraveScannerError>(
            GraveScannerError::PoolDataParseError,
        ),
        res matches Ok(account) ==> first_with_key(accounts@, key@) == Some(*account),
{
    let mut i: usize = 0;
    while i < accounts.len()
        invariant
            0 <= i <= accounts@.len(),
            forall|j: int| 0 <= j < i ==> (#[trigger] accounts@[j]).key@ != key@,
        decreases accounts@.len() - i,
    {
        if accounts[i].key.same_as(key) {
            proof {
                assert(is_first_with_key(accounts@, key@, i as int));
                let c = choose|c: int| is_first_with_key(accounts@, key@, c);
                lemma_first_with_key_unique(accounts@, key@, i as int, c);
            }
            return Ok(&accounts[i]);
        }
        i = i + 1;
    }
    Err(GraveScannerError::PoolDataParseError)
}

} // verus!
