//! Plain snapshots of the accounts an instruction reads.

use vstd::prelude::*;

use crate::pubkey::Pubkey;

verus! {

/// What the programs read of an account: its address, its owning program
/// and its raw data.
#[derive(Debug)]
pub struct AccountSnapshot {
    /// The account's address.
    pub key: Pubkey,
    /// The program that owns the account.
    pub owner: Pubkey,
    /// The account's raw data.
    pub data: Vec<u8>,
}

/// Some account in `accounts` has address `key`.
pub open spec fn has_key(accounts: Seq<AccountSnapshot>, key: Seq<u8>) -> bool {
    exists|i: int| 0 <= i < accounts.len() && (#[trigger] accounts[i]).key@ == key
}

/// `i` is the position of the first account in `accounts` with address `key`.
pub open spec fn is_first_with_key(accounts: Seq<AccountSnapshot>, key: Seq<u8>, i: int) -> bool {
    &&& 0 <= i < accounts.len()
    &&& accounts[i].key@ == key
    &&& forall|j: int| 0 <= j < i ==> (#[trigger] accounts[j]).key@ != key
}

/// The first account in `accounts` with address `key`, if any.
pub open spec fn first_with_key(accounts: Seq<AccountSnapshot>, key: Seq<u8>) -> Option<
    AccountSnapshot,
> {
    if has_key(accounts, key) {
        Some(accounts[choose|i: int| is_first_with_key(accounts, key, i)])
    } else {
        None
    }
}

/// The first-match position is unique.
pub proof fn lemma_first_with_key_unique(accounts: Seq<AccountSnapshot>, key: Seq<u8>, i: int, k: int)
    requires
        is_first_with_key(accounts, key, i),
        is_first_with_key(accounts, key, k),
    ensures
        i == k,
{
    if i < k {
        assert(accounts[i].key@ != key);
    } else if k < i {
        assert(accounts[k].key@ != key);
    }
}

} // verus!
