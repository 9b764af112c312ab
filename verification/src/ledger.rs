//! The ledger that the settlement logic runs against: accounts that hold a
//! balance, and the transfer between two of them.

use crate::pubkey::Pubkey;
use vstd::prelude::*;

verus! {

/// An account of the ledger: who it belongs to and how much it holds, in
/// the smallest unit of the currency.
#[derive(Clone, Copy, Debug, PartialEq, Eq)]
pub struct LedgerAccount {
    pub key: Pubkey,
    pub balance: u64,
}

/// Why a transfer did not take place.
#[derive(Clone, Copy, Debug, PartialEq, Eq, Structural)]
pub enum TransferError {
    /// The paying account holds less than the amount.
    InsufficientFunds,
    /// The receiving account cannot hold the amount on top of its balance.
    BalanceOverflow,
}

impl LedgerAccount {
    /// This account after `amount` has been added to it.
    pub open spec fn credited(self, amount: int) -> LedgerAccount {
        LedgerAccount { key: self.key, balance: (self.balance + amount) as u64 }
    }

    /// This account after `amount` has been taken from it.
    pub open spec fn debited(self, amount: int) -> LedgerAccount {
        LedgerAccount { key: self.key, balance: (self.balance - amount) as u64 }
    }

    /// An account of the given owner with the given balance.
    pub fn new(key: Pubkey, balance: u64) -> (account: LedgerAccount)
        ensures
            account == (LedgerAccount { key, balance }),
    {
        LedgerAccount { key, balance }
    }
}

/// The reason for which moving `amount` between accounts with these
/// balances is refused, if it is. A lack of funds is reported before an
/// overflow on the receiving side.
pub open spec fn transfer_error(from_balance: u64, to_balance: u64, amount: u64) -> Option<
    TransferError,
> {
    if from_balance < amount {
        Some(TransferError::InsufficientFunds)
    } else if to_balance + amount > u64::MAX {
        Some(TransferError::BalanceOverflow)
    } else {
        None
    }
}

/// Moves `amount` from `from` to `to`, or fails and leaves both accounts as
/// they were. The two accounts are distinct records: what leaves the one
/// arrives in full at the other.
pub fn transfer(from: &mut LedgerAccount, to: &mut LedgerAccount, amount: u64) -> (result: Result<
    (),
    TransferError,
>)
    ensures
        match result {
            Ok(()) => {
                &&& transfer_error(old(from).balance, old(to).balance, amount) is None
                &&& *final(from) == old(from).debited(amount as int)
                &&& *final(to) == old(to).credited(amount as int)
            },
            Err(e) => {
                &&& transfer_error(old(from).balance, old(to).balance, amount) == Some(e)
                &&& *final(from) == *old(from)
                &&& *final(to) == *old(to)
            },
        },
{
    if from.balance < amount {
        return Err(TransferError::InsufficientFunds);
    }
    match to.balance.checked_add(amount) {
        None => Err(TransferError::BalanceOverflow),
        Some(raised) => {
            from.balance = from.balance - amount;
            to.balance = raised;
            Ok(())
        },
    }
}

} // verus!
