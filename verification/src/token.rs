//! Transfers of shares between accounts, and the rounds in which they are closed.

use crate::flows::balanced;
use crate::guards::{first, owner_refusal, version_refusal};
use crate::state::{InvestmentVault, Settings, VaultState};
use crate::types::{Address, Effect, Event, Ledger, MuxedAddress, Outcome, VaultError};
use vstd::prelude::*;

verus! {

impl VaultState {
    /// Why a transfer of shares is refused. Shares in the hands of the vault itself would be lost,
    /// and a funding round closes all transfers.
    pub open spec fn transfer_refusal(self, from: Address, to: Address, shares: int) -> Option<
        VaultError,
    > {
        if !self.settings.is_current() {
            Some(VaultError::UnsupportedStateVersion)
        } else if to == self.settings.vault {
            Some(VaultError::TransferToVaultBlocked)
        } else if self.settings.funding_round_active {
            Some(VaultError::FundingRoundActive)
        } else {
            self.move_refusal(from, to, shares)
        }
    }

    /// This state after a transfer of shares. The receiver is locked as by a deposit.
    pub open spec fn after_transfer(
        self,
        ledger: Ledger,
        from: Address,
        to: Address,
        shares: int,
    ) -> VaultState {
        self.moved(from, to, shares).locked(ledger, to)
    }

    /// Why a transfer out of an allowance is refused. A funding round closes it too.
    pub open spec fn spend_refusal(self, from: Address, to: Address, shares: int) -> Option<
        VaultError,
    > {
        if self.settings.funding_round_active {
            Some(VaultError::FundingRoundActive)
        } else {
            self.move_refusal(from, to, shares)
        }
    }
}

/// Why the owner may not open or close a funding round.
pub open spec fn round_refusal(s: Settings) -> Option<VaultError> {
    first(owner_refusal(s), version_refusal(s))
}

impl InvestmentVault {
    /// Move shares of `from` to `to`.
    pub fn transfer(&mut self, ledger: &Ledger, from: Address, to: MuxedAddress, amount: i128) -> (r:
        Result<Outcome<()>, VaultError>)
        ensures
            old(self)@.well_formed() ==> final(self)@.well_formed(),
            match r {
                Ok(out) => {
                    &&& balanced(old(self)@, final(self)@, out.effects@)
                    &&& old(self)@.transfer_refusal(from, to.address, amount as int) is None
                    &&& final(self)@ == old(self)@.after_transfer(
                        *ledger,
                        from,
                        to.address,
                        amount as int,
                    )
                    &&& out.effects@ == seq![Effect::TransferShares { from, to, amount }]
                },
                Err(e) => {
                    &&& old(self)@.transfer_refusal(from, to.address, amount as int) == Some(e)
                    &&& *final(self) == *old(self)
                },
            },
    {
        broadcast use crate::flows::group_flows;

        self.require_current_state()?;
        if to.address == self.settings.vault {
            return Err(VaultError::TransferToVaultBlocked);
        }
        if self.settings.funding_round_active {
            return Err(VaultError::FundingRoundActive);
        }
        self.move_shares(from, to.address, amount)?;
        self.lock_deposit(ledger, to.address);
        proof {
            if old(self)@.well_formed() {
                old(self)@.lemma_moved_keeps(from, to.address, amount as int);
            }
        }
        let effects = vec![Effect::TransferShares { from, to, amount }];
        Ok(Outcome { value: (), effects })
    }

    /// Move shares of `from` to `to` out of the allowance of `spender`. The host keeps the
    /// allowances.
    pub fn transfer_from(&mut self, spender: Address, from: Address, to: Address, amount: i128) -> (r:
        Result<Outcome<()>, VaultError>)
        ensures
            old(self)@.well_formed() ==> final(self)@.well_formed(),
            match r {
                Ok(out) => {
                    &&& balanced(old(self)@, final(self)@, out.effects@)
                    &&& old(self)@.spend_refusal(from, to, amount as int) is None
                    &&& final(self)@ == old(self)@.moved(from, to, amount as int)
                    &&& out.effects@ == seq![
                        Effect::TransferSharesFrom { spender, from, to, amount },
                    ]
                },
                Err(e) => {
                    &&& old(self)@.spend_refusal(from, to, amount as int) == Some(e)
                    &&& *final(self) == *old(self)
                },
            },
    {
        broadcast use crate::flows::group_flows;

        if self.settings.funding_round_active {
            return Err(VaultError::FundingRoundActive);
        }
        self.move_shares(from, to, amount)?;
        proof {
            if old(self)@.well_formed() {
                old(self)@.lemma_moved_keeps(from, to, amount as int);
            }
        }
        let effects = vec![Effect::TransferSharesFrom { spender, from, to, amount }];
        Ok(Outcome { value: (), effects })
    }

    /// Destroy shares of `from`.
    pub fn burn(&mut self, from: Address, amount: i128) -> (r: Result<Outcome<()>, VaultError>)
        ensures
            old(self)@.well_formed() ==> final(self)@.well_formed(),
            match r {
                Ok(out) => {
                    &&& balanced(old(self)@, final(self)@, out.effects@)
                    &&& old(self)@.burn_refusal(from, amount as int) is None
                    &&& final(self)@ == old(self)@.burned(from, amount as int)
                    &&& out.effects@ == seq![Effect::BurnShares { from, amount }]
                },
                Err(e) => {
                    &&& old(self)@.burn_refusal(from, amount as int) == Some(e)
                    &&& *final(self) == *old(self)
                },
            },
    {
        broadcast use crate::flows::group_flows;

        self.burn_shares(from, amount)?;
        proof {
            if old(self)@.well_formed() {
                old(self)@.lemma_burned_keeps(from, amount as int);
            }
        }
        let effects = vec![Effect::BurnShares { from, amount }];
        Ok(Outcome { value: (), effects })
    }

    /// Destroy shares of `from` out of the allowance of `spender`.
    pub fn burn_from(&mut self, spender: Address, from: Address, amount: i128) -> (r: Result<
        Outcome<()>,
        VaultError,
    >)
        ensures
            old(self)@.well_formed() ==> final(self)@.well_formed(),
            match r {
                Ok(out) => {
                    &&& balanced(old(self)@, final(self)@, out.effects@)
                    &&& old(self)@.burn_refusal(from, amount as int) is None
                    &&& final(self)@ == old(self)@.burned(from, amount as int)
                    &&& out.effects@ == seq![Effect::BurnSharesFrom { spender, from, amount }]
                },
                Err(e) => {
                    &&& old(self)@.burn_refusal(from, amount as int) == Some(e)
                    &&& *final(self) == *old(self)
                },
            },
    {
        broadcast use crate::flows::group_flows;

        self.burn_shares(from, amount)?;
        proof {
            if old(self)@.well_formed() {
                old(self)@.lemma_burned_keeps(from, amount as int);
            }
        }
        let effects = vec![Effect::BurnSharesFrom { spender, from, amount }];
        Ok(Outcome { value: (), effects })
    }

    /// Whether a funding round is open.
    pub fn is_funding_round_active(&self) -> (r: Result<bool, VaultError>)
        ensures
            r == if self.settings.is_current() {
                Ok(self.settings.funding_round_active)
            } else {
                Err(VaultError::UnsupportedStateVersion)
            },
    {
        self.require_current_state()?;
        Ok(self.settings.funding_round_active)
    }

    /// Open a funding round: shares cannot be transferred until it is closed.
    pub fn start_funding_round(&mut self) -> (r: Result<Outcome<()>, VaultError>)
        ensures
            old(self)@.well_formed() ==> final(self)@.well_formed(),
            match r {
                Ok(out) => {
                    &&& round_refusal(old(self).settings) is None
                    &&& final(self)@ == old(self)@.with_settings(
                        Settings { funding_round_active: true, ..old(self).settings },
                    )
                    &&& out.effects@ == seq![
                        old(self).settings.owner_auth(),
                        Effect::Emit(Event::FundingRoundStarted),
                    ]
                },
                Err(e) => {
                    &&& round_refusal(old(self).settings) == Some(e)
                    &&& *final(self) == *old(self)
                },
            },
    {
        let owner = self.require_owner()?;
        self.require_current_state()?;
        self.settings.funding_round_active = true;
        let effects = vec![Effect::RequireAuth(owner), Effect::Emit(Event::FundingRoundStarted)];
        Ok(Outcome { value: (), effects })
    }

    /// Close the funding round.
    pub fn end_funding_round(&mut self) -> (r: Result<Outcome<()>, VaultError>)
        ensures
            old(self)@.well_formed() ==> final(self)@.well_formed(),
            match r {
                Ok(out) => {
                    &&& round_refusal(old(self).settings) is None
                    &&& final(self)@ == old(self)@.with_settings(
                        Settings { funding_round_active: false, ..old(self).settings },
                    )
                    &&& out.effects@ == seq![
                        old(self).settings.owner_auth(),
                        Effect::Emit(Event::FundingRoundEnded),
                    ]
                },
                Err(e) => {
                    &&& round_refusal(old(self).settings) == Some(e)
                    &&& *final(self) == *old(self)
                },
            },
    {
        let owner = self.require_owner()?;
        self.require_current_state()?;
        self.settings.funding_round_active = false;
        let effects = vec![Effect::RequireAuth(owner), Effect::Emit(Event::FundingRoundEnded)];
        Ok(Outcome { value: (), effects })
    }
}

} // verus!
