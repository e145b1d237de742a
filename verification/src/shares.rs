//! The ledger of shares, and the vault's balance of USDC.

use crate::arith::{amount, difference, fits, sum};
use crate::guards::refused;
use crate::state::{InvestmentVault, Totals, VaultState};
use crate::tables::{entry, entry_u64};
use crate::types::{Address, VaultError};
use vstd::prelude::*;

verus! {

impl VaultState {
    /// Shares that `account` holds.
    pub open spec fn shares_of(self, account: Address) -> i128 {
        entry(self.share_balances, account.id, 0)
    }

    /// Why shares cannot be created for `to`.
    pub open spec fn mint_refusal(self, to: Address, shares: int) -> Option<VaultError> {
        if shares < 0 {
            Some(VaultError::NegativeAmount)
        } else if !fits(self.totals.total_supply + shares) || !fits(self.shares_of(to) + shares) {
            Some(VaultError::ArithmeticOverflow)
        } else {
            None
        }
    }

    /// This state, with `shares` more in the hands of `to`.
    pub open spec fn minted(self, to: Address, shares: int) -> VaultState {
        VaultState {
            totals: Totals {
                total_supply: (self.totals.total_supply + shares) as i128,
                ..self.totals
            },
            share_balances: self.share_balances.insert(to.id, (self.shares_of(to) + shares) as i128),
            ..self
        }
    }

    /// Why shares of `from` cannot be destroyed.
    pub open spec fn burn_refusal(self, from: Address, shares: int) -> Option<VaultError> {
        if shares < 0 {
            Some(VaultError::NegativeAmount)
        } else if self.shares_of(from) < shares {
            Some(VaultError::InsufficientShares)
        } else if !fits(self.totals.total_supply - shares) {
            Some(VaultError::ArithmeticOverflow)
        } else {
            None
        }
    }

    /// This state, with `shares` fewer in the hands of `from`.
    pub open spec fn burned(self, from: Address, shares: int) -> VaultState {
        VaultState {
            totals: Totals {
                total_supply: (self.totals.total_supply - shares) as i128,
                ..self.totals
            },
            share_balances: self.share_balances.insert(
                from.id,
                (self.shares_of(from) - shares) as i128,
            ),
            ..self
        }
    }

    /// The balance of `to` before it receives shares of `from`.
    pub open spec fn receiving_balance(self, from: Address, to: Address, shares: int) -> int {
        if from == to {
            self.shares_of(to) - shares
        } else {
            self.shares_of(to) as int
        }
    }

    /// Why shares of `from` cannot move to `to`.
    pub open spec fn move_refusal(self, from: Address, to: Address, shares: int) -> Option<
        VaultError,
    > {
        if shares < 0 {
            Some(VaultError::NegativeAmount)
        } else if self.shares_of(from) < shares {
            Some(VaultError::InsufficientShares)
        } else if !fits(self.receiving_balance(from, to, shares) + shares) {
            Some(VaultError::ArithmeticOverflow)
        } else {
            None
        }
    }

    /// This state, with `shares` of `from` in the hands of `to`.
    pub open spec fn moved(self, from: Address, to: Address, shares: int) -> VaultState {
        VaultState {
            share_balances: self.share_balances.insert(
                from.id,
                (self.shares_of(from) - shares) as i128,
            ).insert(to.id, (self.receiving_balance(from, to, shares) + shares) as i128),
            ..self
        }
    }
}

/// What `vault` holds after it receives `paid` from `from`.
pub open spec fn after_receipt(balance: int, vault: Address, from: Address, paid: int) -> Result<
    i128,
    VaultError,
> {
    if paid < 0 {
        Err(VaultError::NegativeAmount)
    } else if from == vault {
        amount(balance)
    } else {
        amount(balance + paid)
    }
}

/// What `vault` holds after it pays `paid` to `to`. It pays no more than it holds.
pub open spec fn after_payment(balance: int, vault: Address, to: Address, paid: int) -> Result<
    i128,
    VaultError,
> {
    if paid < 0 {
        Err(VaultError::NegativeAmount)
    } else if paid > balance {
        Err(VaultError::InsufficientUsdc)
    } else if to == vault {
        amount(balance)
    } else {
        amount(balance - paid)
    }
}

pub(crate) fn receive(balance: i128, vault: Address, from: Address, paid: i128) -> (r: Result<
    i128,
    VaultError,
>)
    ensures
        r == after_receipt(balance as int, vault, from, paid as int),
{
    if paid < 0 {
        return Err(VaultError::NegativeAmount);
    }
    if from == vault {
        return Ok(balance);
    }
    sum(balance, paid)
}

pub(crate) fn pay(balance: i128, vault: Address, to: Address, paid: i128) -> (r: Result<
    i128,
    VaultError,
>)
    ensures
        r == after_payment(balance as int, vault, to, paid as int),
{
    if paid < 0 {
        return Err(VaultError::NegativeAmount);
    }
    if paid > balance {
        return Err(VaultError::InsufficientUsdc);
    }
    if to == vault {
        return Ok(balance);
    }
    difference(balance, paid)
}

impl InvestmentVault {
    pub(crate) fn shares_of(&self, account: Address) -> (r: i128)
        ensures
            r == self@.shares_of(account),
    {
        entry_u64(&self.share_balances, account.id, 0)
    }

    pub(crate) fn mint_shares(&mut self, to: Address, shares: i128) -> (r: Result<(), VaultError>)
        ensures
            match r {
                Ok(_) => {
                    &&& old(self)@.mint_refusal(to, shares as int) is None
                    &&& final(self)@ == old(self)@.minted(to, shares as int)
                },
                Err(e) => {
                    &&& old(self)@.mint_refusal(to, shares as int) == Some(e)
                    &&& *final(self) == *old(self)
                },
            },
    {
        broadcast use vstd::std_specs::btree::group_btree_axioms;

        if shares < 0 {
            return Err(VaultError::NegativeAmount);
        }
        let supply: i128 = sum(self.totals.total_supply, shares)?;
        let held: i128 = sum(self.shares_of(to), shares)?;
        self.totals.total_supply = supply;
        self.share_balances.insert(to.id, held);
        Ok(())
    }

    pub(crate) fn check_burn(&self, from: Address, shares: i128) -> (r: Result<(), VaultError>)
        ensures
            r == refused(self@.burn_refusal(from, shares as int)),
    {
        if shares < 0 {
            return Err(VaultError::NegativeAmount);
        }
        if self.shares_of(from) < shares {
            return Err(VaultError::InsufficientShares);
        }
        difference(self.totals.total_supply, shares)?;
        Ok(())
    }

    pub(crate) fn burn_shares(&mut self, from: Address, shares: i128) -> (r: Result<
        (),
        VaultError,
    >)
        ensures
            match r {
                Ok(_) => {
                    &&& old(self)@.burn_refusal(from, shares as int) is None
                    &&& final(self)@ == old(self)@.burned(from, shares as int)
                },
                Err(e) => {
                    &&& old(self)@.burn_refusal(from, shares as int) == Some(e)
                    &&& *final(self) == *old(self)
                },
            },
    {
        broadcast use vstd::std_specs::btree::group_btree_axioms;

        self.check_burn(from, shares)?;
        let held: i128 = self.shares_of(from);
        self.totals.total_supply = self.totals.total_supply - shares;
        self.share_balances.insert(from.id, held - shares);
        Ok(())
    }

    pub(crate) fn move_shares(&mut self, from: Address, to: Address, shares: i128) -> (r: Result<
        (),
        VaultError,
    >)
        ensures
            match r {
                Ok(_) => {
                    &&& old(self)@.move_refusal(from, to, shares as int) is None
                    &&& final(self)@ == old(self)@.moved(from, to, shares as int)
                },
                Err(e) => {
                    &&& old(self)@.move_refusal(from, to, shares as int) == Some(e)
                    &&& *final(self) == *old(self)
                },
            },
    {
        broadcast use vstd::std_specs::btree::group_btree_axioms;

        if shares < 0 {
            return Err(VaultError::NegativeAmount);
        }
        let held: i128 = self.shares_of(from);
        if held < shares {
            return Err(VaultError::InsufficientShares);
        }
        let before: i128 = if from == to {
            held - shares
        } else {
            self.shares_of(to)
        };
        let after: i128 = sum(before, shares)?;
        self.share_balances.insert(from.id, held - shares);
        self.share_balances.insert(to.id, after);
        Ok(())
    }
}

} // verus!
