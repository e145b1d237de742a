//! Fees and limits that the owner configures, and the listing of the share token.

use crate::constants::{
    MAX_HBS_SUPPLY, MAX_MANAGEMENT_FEE_BPS, MIN_LOCK_PERIOD, SHARE_DECIMALS, SHARE_NAME,
    SHARE_SYMBOL,
};
use crate::guards::{configure_refusal, first, owner_refusal, version_refusal};
use crate::state::{InvestmentVault, Settings, VaultState};
use crate::tables::{optional, optional_u64};
use crate::types::{Address, Effect, Event, HBSTokenInfo, Outcome, VaultError, VolumeTier};
use vstd::prelude::*;

verus! {

/// Why a volume tier is refused. A tier is a discount: its rate is within the cap, and not above
/// the flat rate. A threshold of 0 takes the tier away.
pub open spec fn tier_refusal(s: Settings, threshold: i128, discounted_bps: u32) -> Option<
    VaultError,
> {
    first(
        configure_refusal(s),
        if discounted_bps > MAX_MANAGEMENT_FEE_BPS || (threshold != 0 && discounted_bps
            > s.management_fee_bps) {
            Some(VaultError::FeeExceedsMaximum)
        } else {
            None
        },
    )
}

impl VaultState {
    /// When the deposit lock of `account` ends; 0 where it has made no deposit.
    pub open spec fn lock_expiry(self, account: Address) -> Result<u64, VaultError> {
        match optional(self.last_deposit, account.id) {
            None => Ok(0),
            Some(at) => if at + MIN_LOCK_PERIOD > u64::MAX {
                Err(VaultError::ArithmeticOverflow)
            } else {
                Ok((at + MIN_LOCK_PERIOD) as u64)
            },
        }
    }
}

impl InvestmentVault {
    /// The token that the vault accepts.
    pub fn accepted_asset(&self) -> (r: Result<Address, VaultError>)
        ensures
            r == if self.settings.is_current() {
                Ok(self.settings.usdc_sac)
            } else {
                Err(VaultError::UnsupportedStateVersion)
            },
    {
        self.require_current_state()?;
        Ok(self.settings.usdc_sac)
    }

    /// Set the management fee of deposits, and who gets it; 0 takes the fee away. Nothing is
    /// reported where nothing changes.
    pub fn set_management_fee(&mut self, fee_bps: u32, recipient: Address) -> (r: Result<
        Outcome<()>,
        VaultError,
    >)
        ensures
            old(self)@.well_formed() ==> final(self)@.well_formed(),
            match r {
                Ok(out) => {
                    let s = old(self).settings;
                    &&& configure_refusal(s) is None
                    &&& fee_bps <= MAX_MANAGEMENT_FEE_BPS
                    &&& final(self)@ == old(self)@.with_settings(
                        Settings {
                            management_fee_bps: fee_bps,
                            management_fee_recipient: Some(recipient),
                            ..s
                        },
                    )
                    &&& out.effects@ == if s.management_fee_bps == fee_bps
                        && s.management_fee_recipient == Some(recipient) {
                        seq![s.owner_auth()]
                    } else {
                        seq![
                            s.owner_auth(),
                            Effect::Emit(Event::ManagementFeeSet { recipient, fee_bps }),
                        ]
                    }
                },
                Err(e) => {
                    &&& Some(e) == first(
                        configure_refusal(old(self).settings),
                        if fee_bps > MAX_MANAGEMENT_FEE_BPS {
                            Some(VaultError::FeeExceedsMaximum)
                        } else {
                            None
                        },
                    )
                    &&& *final(self) == *old(self)
                },
            },
    {
        let owner = self.require_configurable()?;
        if fee_bps > MAX_MANAGEMENT_FEE_BPS {
            return Err(VaultError::FeeExceedsMaximum);
        }
        let same_recipient: bool = match self.settings.management_fee_recipient {
            Some(current) => current == recipient,
            None => false,
        };
        let mut effects = vec![Effect::RequireAuth(owner)];
        if self.settings.management_fee_bps == fee_bps && same_recipient {
            return Ok(Outcome { value: (), effects });
        }
        self.settings.management_fee_bps = fee_bps;
        self.settings.management_fee_recipient = Some(recipient);
        effects.push(Effect::Emit(Event::ManagementFeeSet { recipient, fee_bps }));
        Ok(Outcome { value: (), effects })
    }

    pub fn get_management_fee_bps(&self) -> (r: Result<u32, VaultError>)
        ensures
            r == if self.settings.is_current() {
                Ok(self.settings.management_fee_bps)
            } else {
                Err(VaultError::UnsupportedStateVersion)
            },
    {
        self.require_current_state()?;
        Ok(self.settings.management_fee_bps)
    }

    /// Give deposits from `threshold` up a discounted management fee; a threshold of 0 takes the
    /// discount away.
    pub fn set_volume_fee_tier(&mut self, threshold: i128, discounted_bps: u32) -> (r: Result<
        Outcome<()>,
        VaultError,
    >)
        ensures
            old(self)@.well_formed() ==> final(self)@.well_formed(),
            match r {
                Ok(out) => {
                    &&& tier_refusal(old(self).settings, threshold, discounted_bps) is None
                    &&& final(self)@ == old(self)@.with_settings(
                        Settings {
                            volume_tier: if threshold == 0 {
                                None
                            } else {
                                Some(VolumeTier { threshold, discounted_bps })
                            },
                            ..old(self).settings
                        },
                    )
                    &&& out.effects@ == seq![old(self).settings.owner_auth()]
                },
                Err(e) => {
                    &&& tier_refusal(old(self).settings, threshold, discounted_bps) == Some(e)
                    &&& *final(self) == *old(self)
                },
            },
    {
        let owner = self.require_configurable()?;
        if discounted_bps > MAX_MANAGEMENT_FEE_BPS {
            return Err(VaultError::FeeExceedsMaximum);
        }
        if threshold == 0 {
            self.settings.volume_tier = None;
        } else {
            if discounted_bps > self.settings.management_fee_bps {
                return Err(VaultError::FeeExceedsMaximum);
            }
            self.settings.volume_tier = Some(VolumeTier { threshold, discounted_bps });
        }
        let effects = vec![Effect::RequireAuth(owner)];
        Ok(Outcome { value: (), effects })
    }

    /// The volume tier, as threshold and rate; zeros where there is none.
    pub fn get_volume_fee_tier(&self) -> (r: Result<(i128, u32), VaultError>)
        ensures
            r == if !self.settings.is_current() {
                Err(VaultError::UnsupportedStateVersion)
            } else {
                Ok(
                    match self.settings.volume_tier {
                        Some(tier) => (tier.threshold, tier.discounted_bps),
                        None => (0i128, 0u32),
                    },
                )
            },
    {
        self.require_current_state()?;
        match self.settings.volume_tier {
            Some(tier) => Ok((tier.threshold, tier.discounted_bps)),
            None => Ok((0, 0)),
        }
    }

    /// Set the number of ledgers that have to pass between a deposit of an account and its next
    /// withdrawal; 0 takes the window away.
    pub fn set_withdrawal_window(&mut self, ledgers: u32) -> (r: Result<Outcome<()>, VaultError>)
        ensures
            old(self)@.well_formed() ==> final(self)@.well_formed(),
            match r {
                Ok(out) => {
                    &&& configure_refusal(old(self).settings) is None
                    &&& final(self)@ == old(self)@.with_settings(
                        Settings { withdrawal_window_ledgers: ledgers, ..old(self).settings },
                    )
                    &&& out.effects@ == seq![
                        old(self).settings.owner_auth(),
                        Effect::Emit(Event::WithdrawalWindowSet { ledgers }),
                    ]
                },
                Err(e) => {
                    &&& configure_refusal(old(self).settings) == Some(e)
                    &&& *final(self) == *old(self)
                },
            },
    {
        let owner = self.require_configurable()?;
        self.settings.withdrawal_window_ledgers = ledgers;
        let effects = vec![
            Effect::RequireAuth(owner),
            Effect::Emit(Event::WithdrawalWindowSet { ledgers }),
        ];
        Ok(Outcome { value: (), effects })
    }

    pub fn get_withdrawal_window(&self) -> (r: u32)
        ensures
            r == self.settings.withdrawal_window_ledgers,
    {
        self.settings.withdrawal_window_ledgers
    }

    /// When the deposit lock of `account` ends, in Unix seconds; 0 where it has made no deposit.
    pub fn get_deposit_lock_expiry(&self, account: Address) -> (r: Result<u64, VaultError>)
        ensures
            r == self@.lock_expiry(account),
    {
        match optional_u64(&self.last_deposit, account.id) {
            None => Ok(0),
            Some(at) => {
                if at > u64::MAX - MIN_LOCK_PERIOD {
                    return Err(VaultError::ArithmeticOverflow);
                }
                Ok(at + MIN_LOCK_PERIOD)
            },
        }
    }

    /// Set the largest single transaction; 0 takes the limit away. Nothing is reported where
    /// nothing changes.
    pub fn set_max_transaction_amount(&mut self, amount: i128) -> (r: Result<
        Outcome<()>,
        VaultError,
    >)
        ensures
            old(self)@.well_formed() ==> final(self)@.well_formed(),
            match r {
                Ok(out) => {
                    let s = old(self).settings;
                    &&& configure_refusal(s) is None
                    &&& amount >= 0
                    &&& final(self)@ == old(self)@.with_settings(
                        Settings { max_transaction_amount: amount, ..s },
                    )
                    &&& out.effects@ == if s.max_transaction_amount == amount {
                        seq![s.owner_auth()]
                    } else {
                        seq![
                            s.owner_auth(),
                            Effect::Emit(Event::MaxTransactionAmountSet { amount }),
                        ]
                    }
                },
                Err(e) => {
                    &&& Some(e) == first(
                        configure_refusal(old(self).settings),
                        if amount < 0 {
                            Some(VaultError::NegativeMaxTransactionAmount)
                        } else {
                            None
                        },
                    )
                    &&& *final(self) == *old(self)
                },
            },
    {
        let owner = self.require_configurable()?;
        if amount < 0 {
            return Err(VaultError::NegativeMaxTransactionAmount);
        }
        let mut effects = vec![Effect::RequireAuth(owner)];
        if self.settings.max_transaction_amount != amount {
            self.settings.max_transaction_amount = amount;
            effects.push(Effect::Emit(Event::MaxTransactionAmountSet { amount }));
        }
        Ok(Outcome { value: (), effects })
    }

    pub fn max_transaction_amount(&self) -> (r: Result<i128, VaultError>)
        ensures
            r == if self.settings.is_current() {
                Ok(self.settings.max_transaction_amount)
            } else {
                Err(VaultError::UnsupportedStateVersion)
            },
    {
        self.require_current_state()?;
        Ok(self.settings.max_transaction_amount)
    }

    /// Mark the share token as listed. Nothing is reported where it is listed already.
    pub fn enable_secondary_trading(&mut self) -> (r: Result<Outcome<()>, VaultError>)
        ensures
            old(self)@.well_formed() ==> final(self)@.well_formed(),
            match r {
                Ok(out) => {
                    let s = old(self).settings;
                    &&& owner_refusal(s) is None
                    &&& version_refusal(s) is None
                    &&& final(self)@ == old(self)@.with_settings(
                        Settings { trading_enabled: true, ..s },
                    )
                    &&& out.effects@ == if s.trading_enabled {
                        seq![s.owner_auth()]
                    } else {
                        seq![
                            s.owner_auth(),
                            Effect::Emit(Event::TradingEnabled { enabled: true }),
                        ]
                    }
                },
                Err(e) => {
                    &&& Some(e) == first(
                        owner_refusal(old(self).settings),
                        version_refusal(old(self).settings),
                    )
                    &&& *final(self) == *old(self)
                },
            },
    {
        let owner = self.require_owner()?;
        self.require_current_state()?;
        let mut effects = vec![Effect::RequireAuth(owner)];
        if !self.settings.trading_enabled {
            self.settings.trading_enabled = true;
            effects.push(Effect::Emit(Event::TradingEnabled { enabled: true }));
        }
        Ok(Outcome { value: (), effects })
    }

    pub fn is_trading_enabled(&self) -> (r: Result<bool, VaultError>)
        ensures
            r == if self.settings.is_current() {
                Ok(self.settings.trading_enabled)
            } else {
                Err(VaultError::UnsupportedStateVersion)
            },
    {
        self.require_current_state()?;
        Ok(self.settings.trading_enabled)
    }

    /// The share token, for listings.
    pub fn get_hbs_token_info(&self) -> (r: Result<HBSTokenInfo, VaultError>)
        ensures
            match r {
                Ok(info) => {
                    &&& self.settings.is_current()
                    &&& info.name@ == SHARE_NAME@
                    &&& info.symbol@ == SHARE_SYMBOL@
                    &&& info.decimals == SHARE_DECIMALS
                    &&& info.trading_enabled == self.settings.trading_enabled
                },
                Err(e) => {
                    &&& !self.settings.is_current()
                    &&& e == VaultError::UnsupportedStateVersion
                },
            },
    {
        self.require_current_state()?;
        Ok(
            HBSTokenInfo {
                name: SHARE_NAME.to_string(),
                symbol: SHARE_SYMBOL.to_string(),
                decimals: SHARE_DECIMALS,
                trading_enabled: self.settings.trading_enabled,
            },
        )
    }

    /// The most shares that may ever be outstanding.
    pub fn max_hbs_supply() -> (r: i128)
        ensures
            r == MAX_HBS_SUPPLY,
    {
        MAX_HBS_SUPPLY
    }
}

} // verus!
