//! Flash loans: USDC of the vault, lent for the length of one callback.

use crate::arith::{fits, proportion, scaled, sum};
use crate::constants::{BPS_SCALE, MAX_FLASH_LOAN_FEE_BPS};
use crate::flows::balanced;
use crate::guards::{first, owner_refusal, pause_refusal, version_refusal};
use crate::laws::rounding::a_flash_fee_is_its_rate;
use crate::shares::{after_payment, after_receipt, pay, receive};
use crate::state::{InvestmentVault, Settings, Totals, VaultState};
use crate::types::{Address, Effect, Event, FlashLoan, Outcome, VaultError};
use vstd::prelude::*;

verus! {

/// Why a flash loan fee is refused.
pub open spec fn flash_fee_refusal(s: Settings, fee_bps: u32) -> Option<VaultError> {
    first(
        owner_refusal(s),
        first(
            pause_refusal(s),
            if fee_bps > MAX_FLASH_LOAN_FEE_BPS {
                Some(VaultError::FlashLoanFeeOutOfRange)
            } else {
                version_refusal(s)
            },
        ),
    )
}

impl Settings {
    /// The fee of a flash loan.
    pub open spec fn flash_fee(self, amount: int) -> Result<i128, VaultError> {
        proportion(amount, self.flash_loan_fee_bps as int, BPS_SCALE as int)
    }
}

impl VaultState {
    /// Why a flash loan is refused. The vault lends no more than it holds.
    pub open spec fn flash_refusal(self, borrower: Address, amount: int) -> Option<VaultError> {
        if !self.settings.is_current() {
            Some(VaultError::UnsupportedStateVersion)
        } else if amount <= 0 {
            Some(VaultError::AmountNotPositive)
        } else {
            match self.settings.flash_fee(amount) {
                Err(e) => Some(e),
                Ok(fee) => if !fits(amount + fee) {
                    Some(VaultError::ArithmeticOverflow)
                } else {
                    match after_payment(
                        self.totals.usdc_balance as int,
                        self.settings.vault,
                        borrower,
                        amount,
                    ) {
                        Err(e) => Some(e),
                        Ok(_) => None,
                    }
                },
            }
        }
    }

    /// This state with a flash loan paid out: the borrower has the USDC. No shares change.
    pub open spec fn lending(self, loan: FlashLoan) -> VaultState {
        self.with_totals(
            Totals {
                usdc_balance: after_payment(
                    self.totals.usdc_balance as int,
                    self.settings.vault,
                    loan.borrower,
                    loan.amount as int,
                )->Ok_0,
                ..self.totals
            },
        )
    }

    /// What the vault holds once a flash loan and its fee are given back.
    pub open spec fn usdc_after_settlement(self, loan: FlashLoan) -> Result<i128, VaultError> {
        after_receipt(
            self.totals.usdc_balance as int,
            self.settings.vault,
            loan.borrower,
            loan.amount + loan.fee,
        )
    }

    /// Why a flash loan cannot be settled, given whether the callback succeeded.
    pub open spec fn settle_refusal(self, loan: FlashLoan, callback_ok: bool) -> Option<
        VaultError,
    > {
        if !callback_ok {
            Some(VaultError::FlashLoanCallbackFailed)
        } else if !fits(loan.amount + loan.fee) {
            Some(VaultError::ArithmeticOverflow)
        } else {
            match self.usdc_after_settlement(loan) {
                Err(e) => Some(e),
                Ok(_) => None,
            }
        }
    }

    /// This state with a flash loan settled: the vault has the loan back, and the fee.
    pub open spec fn settled(self, loan: FlashLoan) -> VaultState {
        self.with_totals(
            Totals { usdc_balance: self.usdc_after_settlement(loan)->Ok_0, ..self.totals },
        )
    }
}

/// What the host does to pay out a flash loan.
pub open spec fn lending_effects(vault: Address, loan: FlashLoan, data: Vec<u8>) -> Seq<Effect> {
    seq![
        Effect::RequireAuth(loan.initiator),
        Effect::TransferUsdc { from: vault, to: loan.borrower, amount: loan.amount },
        Effect::FlashLoanCallback { loan, vault, data },
    ]
}

/// What the host does to settle a flash loan.
pub open spec fn settlement_effects(vault: Address, loan: FlashLoan) -> Seq<Effect> {
    seq![
        Effect::TransferUsdc {
            from: loan.borrower,
            to: vault,
            amount: (loan.amount + loan.fee) as i128,
        },
        Effect::Emit(
            Event::FlashLoan {
                initiator: loan.initiator,
                borrower: loan.borrower,
                amount: loan.amount,
                fee: loan.fee,
            },
        ),
    ]
}

impl InvestmentVault {
    /// Set the flash loan fee. Nothing is reported where nothing changes.
    pub fn set_flash_loan_fee(&mut self, fee_bps: u32) -> (r: Result<Outcome<()>, VaultError>)
        ensures
            old(self)@.well_formed() ==> final(self)@.well_formed(),
            match r {
                Ok(out) => {
                    let s = old(self).settings;
                    &&& flash_fee_refusal(s, fee_bps) is None
                    &&& final(self)@ == old(self)@.with_settings(
                        Settings { flash_loan_fee_bps: fee_bps, ..s },
                    )
                    &&& out.effects@ == if s.flash_loan_fee_bps == fee_bps {
                        seq![s.owner_auth()]
                    } else {
                        seq![s.owner_auth(), Effect::Emit(Event::FlashLoanFeeSet { fee_bps })]
                    }
                },
                Err(e) => {
                    &&& flash_fee_refusal(old(self).settings, fee_bps) == Some(e)
                    &&& *final(self) == *old(self)
                },
            },
    {
        let owner = self.require_owner()?;
        self.require_not_paused()?;
        if fee_bps > MAX_FLASH_LOAN_FEE_BPS {
            return Err(VaultError::FlashLoanFeeOutOfRange);
        }
        let current: u32 = self.flash_loan_fee()?;
        let mut effects = vec![Effect::RequireAuth(owner)];
        if current != fee_bps {
            self.settings.flash_loan_fee_bps = fee_bps;
            effects.push(Effect::Emit(Event::FlashLoanFeeSet { fee_bps }));
        }
        Ok(Outcome { value: (), effects })
    }

    /// The flash loan fee, in basis points.
    pub fn flash_loan_fee(&self) -> (r: Result<u32, VaultError>)
        ensures
            r == if self.settings.is_current() {
                Ok(self.settings.flash_loan_fee_bps)
            } else {
                Err(VaultError::UnsupportedStateVersion)
            },
    {
        self.require_current_state()?;
        Ok(self.settings.flash_loan_fee_bps)
    }

    /// Pay out a flash loan of USDC and hand the borrower the control.
    /// [`Self::settle_flash_loan`] follows, on the state that the callback leaves.
    pub fn execute_flash_loan(
        &mut self,
        initiator: Address,
        borrower: Address,
        amount: i128,
        data: Vec<u8>,
    ) -> (r: Result<Outcome<FlashLoan>, VaultError>)
        ensures
            old(self)@.well_formed() ==> final(self)@.well_formed(),
            match r {
                Ok(out) => {
                    let loan = out.value;
                    let vault = old(self).settings.vault;
                    &&& balanced(old(self)@, final(self)@, out.effects@)
                    &&& old(self)@.flash_refusal(borrower, amount as int) is None
                    &&& loan.initiator == initiator
                    &&& loan.borrower == borrower
                    &&& loan.amount == amount
                    &&& old(self).settings.flash_fee(amount as int) == Ok::<i128, VaultError>(
                        loan.fee,
                    )
                    &&& loan.fee * 10_000 <= amount * old(self).settings.flash_loan_fee_bps < (
                    loan.fee + 1) * 10_000
                    &&& final(self)@ == old(self)@.lending(loan)
                    &&& out.effects@ == lending_effects(vault, loan, data)
                },
                Err(e) => {
                    &&& old(self)@.flash_refusal(borrower, amount as int) == Some(e)
                    &&& *final(self) == *old(self)
                },
            },
    {
        broadcast use crate::flows::group_flows;

        self.require_current_state()?;
        if amount <= 0 {
            return Err(VaultError::AmountNotPositive);
        }
        let fee: i128 = scaled(amount, self.settings.flash_loan_fee_bps as i128, BPS_SCALE)?;
        sum(amount, fee)?;
        let vault = self.settings.vault;
        let held: i128 = pay(self.totals.usdc_balance, vault, borrower, amount)?;
        self.totals.usdc_balance = held;
        let loan = FlashLoan { initiator, borrower, amount, fee };
        proof {
            a_flash_fee_is_its_rate(old(self).settings, amount as int);
        }
        let effects = vec![
            Effect::RequireAuth(initiator),
            Effect::TransferUsdc { from: vault, to: borrower, amount },
            Effect::FlashLoanCallback { loan, vault, data },
        ];
        Ok(Outcome { value: loan, effects })
    }

    /// Take a flash loan and its fee back, given whether the callback succeeded.
    pub fn settle_flash_loan(&mut self, loan: FlashLoan, callback_ok: bool) -> (r: Result<
        Outcome<()>,
        VaultError,
    >)
        ensures
            old(self)@.well_formed() ==> final(self)@.well_formed(),
            match r {
                Ok(out) => {
                    &&& balanced(old(self)@, final(self)@, out.effects@)
                    &&& old(self)@.settle_refusal(loan, callback_ok) is None
                    &&& final(self)@ == old(self)@.settled(loan)
                    &&& out.effects@ == settlement_effects(old(self).settings.vault, loan)
                },
                Err(e) => {
                    &&& old(self)@.settle_refusal(loan, callback_ok) == Some(e)
                    &&& *final(self) == *old(self)
                },
            },
    {
        broadcast use crate::flows::group_flows;

        if !callback_ok {
            return Err(VaultError::FlashLoanCallbackFailed);
        }
        let due: i128 = sum(loan.amount, loan.fee)?;
        let vault = self.settings.vault;
        let held: i128 = receive(self.totals.usdc_balance, vault, loan.borrower, due)?;
        self.totals.usdc_balance = held;
        let effects = vec![
            Effect::TransferUsdc { from: loan.borrower, to: vault, amount: due },
            Effect::Emit(
                Event::FlashLoan {
                    initiator: loan.initiator,
                    borrower: loan.borrower,
                    amount: loan.amount,
                    fee: loan.fee,
                },
            ),
        ];
        Ok(Outcome { value: (), effects })
    }
}

} // verus!
