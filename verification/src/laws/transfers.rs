//! Shares that move are neither made nor lost, and USDC that is lent comes back.

use crate::state::{Settings, Totals, VaultState};
use crate::types::{Address, FlashLoan, Ledger, VaultError};
use vstd::prelude::*;

verus! {

impl VaultState {
    /// A transfer moves shares from one account to the other and changes no third one. The shares
    /// outstanding stay.
    pub proof fn transfers_conserve_shares(
        self,
        ledger: Ledger,
        from: Address,
        to: Address,
        shares: int,
        third: Address,
    )
        requires
            self.transfer_refusal(from, to, shares) is None,
            third != from,
            third != to,
        ensures
            ({
                let after = self.after_transfer(ledger, from, to, shares);
                &&& after.totals.total_supply == self.totals.total_supply
                &&& from != to ==> after.shares_of(from) == self.shares_of(from) - shares
                &&& from != to ==> after.shares_of(to) == self.shares_of(to) + shares
                &&& from == to ==> after.shares_of(to) == self.shares_of(to)
                &&& after.shares_of(third) == self.shares_of(third)
            }),
    {
    }

    /// While a funding round is open, no shares are transferred, by their holder or out of an
    /// allowance; closing it opens transfers again.
    pub proof fn a_funding_round_closes_transfers(self, from: Address, to: Address, shares: int)
        ensures
            self.settings.funding_round_active ==> {
                &&& self.transfer_refusal(from, to, shares) is Some
                &&& self.spend_refusal(from, to, shares) == Some(VaultError::FundingRoundActive)
            },
            ({
                let closed = self.with_settings(
                    Settings { funding_round_active: false, ..self.settings },
                );
                &&& closed.spend_refusal(from, to, shares) == self.move_refusal(from, to, shares)
                &&& self.settings.is_current() && to != self.settings.vault
                    ==> closed.transfer_refusal(from, to, shares) == self.move_refusal(
                    from,
                    to,
                    shares,
                )
            }),
    {
    }

    /// Shares cannot be transferred to the vault itself.
    pub proof fn no_transfer_to_the_vault(self, from: Address, shares: int)
        requires
            self.settings.is_current(),
        ensures
            self.transfer_refusal(from, self.settings.vault, shares) == Some(
                VaultError::TransferToVaultBlocked,
            ),
    {
    }

    /// A flash loan that is given back leaves the vault with the fee more, and changes nothing else.
    /// While it is out, the vault has the amount less. (A vault that borrows from itself pays itself:
    /// nothing changes at all.)
    pub proof fn a_flash_loan_earns_its_fee(self, loan: FlashLoan)
        requires
            self.flash_refusal(loan.borrower, loan.amount as int) is None,
            self.settings.flash_fee(loan.amount as int) == Ok::<i128, VaultError>(loan.fee),
            self.totals.usdc_balance + loan.fee <= i128::MAX,
        ensures
            ({
                let lent = self.lending(loan);
                let after = lent.settled(loan);
                let balance = self.totals.usdc_balance;
                &&& loan.fee >= 0
                &&& lent.settle_refusal(loan, true) is None
                &&& loan.borrower != self.settings.vault ==> {
                    &&& lent.totals.usdc_balance == balance - loan.amount
                    &&& after.totals.usdc_balance == balance + loan.fee
                }
                &&& loan.borrower == self.settings.vault ==> after == self
                &&& after.with_totals(self.totals) == self
                &&& after.totals == (Totals {
                    usdc_balance: after.totals.usdc_balance,
                    ..self.totals
                })
            }),
    {
        let bps = self.settings.flash_loan_fee_bps as int;
        assert(loan.amount * bps >= 0) by (nonlinear_arith)
            requires
                loan.amount > 0,
                bps >= 0,
        ;
    }

    /// The vault lends no more than it holds.
    pub proof fn a_flash_loan_is_within_the_balance(self, loan: FlashLoan)
        requires
            self.flash_refusal(loan.borrower, loan.amount as int) is None,
        ensures
            0 < loan.amount <= self.totals.usdc_balance,
            self.lending(loan).totals.usdc_balance >= 0,
    {
    }

    /// A flash loan whose callback fails is not settled.
    pub proof fn a_failed_callback_fails_the_loan(self, loan: FlashLoan)
        ensures
            self.settle_refusal(loan, false) == Some(VaultError::FlashLoanCallbackFailed),
    {
    }

    /// Whatever the callback did, a loan that is settled is given back in full, with its fee.
    pub proof fn a_loan_is_given_back_in_full(self, loan: FlashLoan)
        requires
            self.settle_refusal(loan, true) is None,
            loan.borrower != self.settings.vault,
        ensures
            self.settled(loan).totals.usdc_balance == self.totals.usdc_balance + loan.amount
                + loan.fee,
            self.settled(loan).totals.total_supply == self.totals.total_supply,
            self.settled(loan).share_balances == self.share_balances,
    {
    }
}

} // verus!
