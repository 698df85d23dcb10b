use crate::error::ErrorCode;
use crate::pubkey::Pubkey;
use vstd::prelude::*;

verus! {

/// The time and the slot counter, as sampled when an operation starts.
#[derive(Clone, Copy, Debug, PartialEq, Eq)]
pub struct Clock {
    /// The slot counter: it only grows, and everybody can see it.
    pub slot: u64,
    /// The Unix time.
    pub unix_timestamp: i64,
}

/// A holder of funds: an address and the lamports kept under it.
#[derive(Clone, Copy, Debug, PartialEq, Eq)]
pub struct Account {
    /// The address of the holder.
    pub key: Pubkey,
    /// The funds of the holder.
    pub lamports: u64,
}

/// A movement of funds that an operation asks for and does not make itself.
#[derive(Clone, Copy, Debug, PartialEq, Eq)]
pub struct Transfer {
    /// The address that pays.
    pub from: Pubkey,
    /// The address that receives.
    pub to: Pubkey,
    /// The funds to move.
    pub lamports: u64,
}

/// How a transfer ended: it moves all of its funds or none.
#[derive(Clone, Copy, Debug, PartialEq, Eq, Structural)]
pub enum TransferOutcome {
    /// The funds have moved.
    Made,
    /// No funds have moved, as where the payer holds too little.
    Failed,
}

/// Whether `amount` cannot be moved between balances `from` and `to`: the
/// source holds less, or the destination would leave the range of `u64`.
pub open spec fn move_overflows(from: u64, to: u64, amount: u64) -> bool {
    amount > from || to + amount > u64::MAX
}

/// Debits `amount` from the balance `from` and credits it to the balance `to`,
/// as one paired operation: both new balances come back, or
/// `MathOverflow` and neither.
pub fn move_funds(from: u64, to: u64, amount: u64) -> (moved: Result<(u64, u64), ErrorCode>)
    ensures
        match moved {
            Ok((debited, credited)) => {
                &&& !move_overflows(from, to, amount)
                &&& debited == from - amount
                &&& credited == to + amount
            },
            Err(e) => e == ErrorCode::MathOverflow && move_overflows(from, to, amount),
        },
{
    let debited = match from.checked_sub(amount) {
        Some(left) => left,
        None => {
            return Err(ErrorCode::MathOverflow);
        },
    };
    let credited = match to.checked_add(amount) {
        Some(sum) => sum,
        None => {
            return Err(ErrorCode::MathOverflow);
        },
    };
    Ok((debited, credited))
}

/// Whether `i` is the position of the first of `accounts` whose address is
/// `key`.
pub open spec fn is_first_with_key(accounts: Seq<Account>, key: Pubkey, i: int) -> bool {
    &&& 0 <= i < accounts.len()
    &&& accounts[i].key == key
    &&& forall|j: int| 0 <= j < i ==> (#[trigger] accounts[j]).key != key
}

/// The position of the first of `accounts` whose address is `key`, if there
/// is one.
pub open spec fn first_with_key(accounts: Seq<Account>, key: Pubkey) -> Option<int> {
    if exists|i: int| is_first_with_key(accounts, key, i) {
        Some(choose|i: int| is_first_with_key(accounts, key, i))
    } else {
        None
    }
}

/// At most one position is the first with a given address, and there is one
/// as soon as any account has the address.
pub proof fn lemma_first_with_key(accounts: Seq<Account>, key: Pubkey)
    ensures
        forall|i: int|
            is_first_with_key(accounts, key, i) ==> first_with_key(accounts, key) == Some(i),
        first_with_key(accounts, key) is None <==> forall|j: int|
            0 <= j < accounts.len() ==> (#[trigger] accounts[j]).key != key,
        first_with_key(accounts, key) matches Some(i) ==> is_first_with_key(accounts, key, i),
{
    if exists|j: int| 0 <= j < accounts.len() && (#[trigger] accounts[j]).key == key {
        let j = choose|j: int| 0 <= j < accounts.len() && (#[trigger] accounts[j]).key == key;
        lemma_some_first_with_key(accounts, key, j);
    }
}

/// If the account at position `j` has the address, some position at or
/// before `j` is the first that has it.
proof fn lemma_some_first_with_key(accounts: Seq<Account>, key: Pubkey, j: int)
    requires
        0 <= j < accounts.len(),
        accounts[j].key == key,
    ensures
        exists|i: int| is_first_with_key(accounts, key, i),
    decreases j,
{
    if exists|k: int| 0 <= k < j && (#[trigger] accounts[k]).key == key {
        let k = choose|k: int| 0 <= k < j && (#[trigger] accounts[k]).key == key;
        lemma_some_first_with_key(accounts, key, k);
    } else {
        assert(is_first_with_key(accounts, key, j));
    }
}

/// Searches `accounts` from the front for the first whose address is `key`.
pub fn find_account(accounts: &Vec<Account>, key: &Pubkey) -> (found: Option<usize>)
    ensures
        match found {
            Some(i) => first_with_key(accounts@, *key) == Some(i as int),
            None => first_with_key(accounts@, *key) is None,
        },
{
    let mut i: usize = 0;
    while i < accounts.len()
        invariant
            i <= accounts.len(),
            forall|j: int| 0 <= j < i ==> (#[trigger] accounts@[j]).key != *key,
        decreases accounts.len() - i,
    {
        if accounts[i].key == *key {
            proof {
                lemma_first_with_key(accounts@, *key);
            }
            return Some(i);
        }
        i = i + 1;
    }
    proof {
        lemma_first_with_key(accounts@, *key);
    }
    None
}

} // verus!
