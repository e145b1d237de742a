//! Carbon credits, earned by investments in green projects.

use crate::arith::{fits, proportion, scaled, sum};
use crate::constants::CARBON_UNIT;
use crate::guards::{configure_refusal, first, pause_refusal, version_refusal};
use crate::state::{InvestmentVault, Registry, RegistryView, Settings, VaultState};
use crate::tables::{entry, entry_u64, optional, optional_u32};
use crate::types::{Address, CarbonCreditCalculation, Effect, Event, Outcome, VaultError};
use vstd::prelude::*;

verus! {

/// Why a carbon credit price is refused.
pub open spec fn carbon_price_refusal(s: Settings, price: i128) -> Option<VaultError> {
    first(
        pause_refusal(s),
        first(
            version_refusal(s),
            if s.carbon_oracle is None {
                Some(VaultError::CarbonOracleNotSet)
            } else if price <= 0 {
                Some(VaultError::CarbonPriceNotPositive)
            } else {
                None
            },
        ),
    )
}

/// The credits that an investment in a project earns.
pub open spec fn carbon_credits(s: Settings, registry: RegistryView, project_id: u32, invested: int) -> Result<
    i128,
    VaultError,
> {
    if !s.is_current() {
        Err(VaultError::UnsupportedStateVersion)
    } else if invested <= 0 {
        Err(VaultError::AmountNotPositive)
    } else {
        match optional(registry.projects, project_id) {
            None => Err(VaultError::ProjectNotFound),
            Some(project) => proportion(invested, project.green_impact as int, CARBON_UNIT as int),
        }
    }
}

impl VaultState {
    /// Carbon credits that `account` holds.
    pub open spec fn credits_of(self, account: Address) -> i128 {
        entry(self.carbon_credits, account.id, 0)
    }

    /// Why issuing credits is refused.
    pub open spec fn issue_refusal(
        self,
        registry: RegistryView,
        to: Address,
        project_id: u32,
        invested: int,
    ) -> Option<VaultError> {
        match carbon_credits(self.settings, registry, project_id, invested) {
            Err(e) => Some(e),
            Ok(credits) => if credits <= 0 {
                Some(VaultError::NoCarbonCreditsToIssue)
            } else if !fits(self.credits_of(to) + credits) {
                Some(VaultError::ArithmeticOverflow)
            } else {
                None
            },
        }
    }

    /// This state with `credits` issued to an account.
    pub open spec fn issued(self, to: Address, credits: int) -> VaultState {
        VaultState {
            carbon_credits: self.carbon_credits.insert(
                to.id,
                (self.credits_of(to) + credits) as i128,
            ),
            ..self
        }
    }

    /// The credits of `to` before it receives credits of `from`.
    pub open spec fn receiving_credits(self, from: Address, to: Address, credits: int) -> int {
        if from == to {
            self.credits_of(to) - credits
        } else {
            self.credits_of(to) as int
        }
    }

    /// Why a transfer of credits is refused.
    pub open spec fn credit_transfer_refusal(self, from: Address, to: Address, credits: int) -> Option<
        VaultError,
    > {
        if !self.settings.is_current() {
            Some(VaultError::UnsupportedStateVersion)
        } else if credits <= 0 {
            Some(VaultError::AmountNotPositive)
        } else if self.credits_of(from) < credits {
            Some(VaultError::InsufficientCarbonCredits)
        } else if !fits(self.receiving_credits(from, to, credits) + credits) {
            Some(VaultError::ArithmeticOverflow)
        } else {
            None
        }
    }

    /// This state after a transfer of credits.
    pub open spec fn after_credit_transfer(
        self,
        from: Address,
        to: Address,
        credits: int,
    ) -> VaultState {
        VaultState {
            carbon_credits: self.carbon_credits.insert(
                from.id,
                (self.credits_of(from) - credits) as i128,
            ).insert(to.id, (self.receiving_credits(from, to, credits) + credits) as i128),
            ..self
        }
    }
}

/// What the host does for a calculation of credits.
pub open spec fn credit_effects(project_id: u32, amount: i128, credits: i128) -> Seq<Effect> {
    seq![Effect::Emit(Event::CarbonCreditsCalculated { project_id, amount, credits })]
}

/// What the host does for a transfer of credits.
pub open spec fn credit_transfer_effects(from: Address, to: Address, amount: i128) -> Seq<Effect> {
    seq![
        Effect::RequireAuth(from),
        Effect::Emit(Event::CarbonCreditsTransferred { from, to, amount }),
    ]
}

impl InvestmentVault {
    /// Name the carbon oracle. Nothing is reported where nothing changes.
    pub fn set_carbon_oracle(&mut self, oracle: Address) -> (r: Result<Outcome<()>, VaultError>)
        ensures
            old(self)@.well_formed() ==> final(self)@.well_formed(),
            match r {
                Ok(out) => {
                    let s = old(self).settings;
                    &&& configure_refusal(s) is None
                    &&& final(self)@ == old(self)@.with_settings(
                        Settings { carbon_oracle: Some(oracle), ..s },
                    )
                    &&& out.effects@ == if s.carbon_oracle == Some(oracle) {
                        seq![s.owner_auth()]
                    } else {
                        seq![s.owner_auth(), Effect::Emit(Event::CarbonOracleSet { oracle })]
                    }
                },
                Err(e) => {
                    &&& configure_refusal(old(self).settings) == Some(e)
                    &&& *final(self) == *old(self)
                },
            },
    {
        let owner = self.require_configurable()?;
        let mut effects = vec![Effect::RequireAuth(owner)];
        if let Some(current) = self.settings.carbon_oracle {
            if current == oracle {
                return Ok(Outcome { value: (), effects });
            }
        }
        self.settings.carbon_oracle = Some(oracle);
        effects.push(Effect::Emit(Event::CarbonOracleSet { oracle }));
        Ok(Outcome { value: (), effects })
    }

    /// Set the price of a credit, as the carbon oracle. It is for reports only. Nothing is
    /// reported where nothing changes.
    pub fn set_carbon_credit_price(&mut self, price: i128) -> (r: Result<Outcome<()>, VaultError>)
        ensures
            old(self)@.well_formed() ==> final(self)@.well_formed(),
            match r {
                Ok(out) => {
                    let s = old(self).settings;
                    &&& carbon_price_refusal(s, price) is None
                    &&& final(self)@ == old(self)@.with_settings(
                        Settings { carbon_credit_price: price, ..s },
                    )
                    &&& out.effects@ == if s.carbon_credit_price == price {
                        seq![Effect::RequireAuth(s.carbon_oracle->Some_0)]
                    } else {
                        seq![
                            Effect::RequireAuth(s.carbon_oracle->Some_0),
                            Effect::Emit(Event::CarbonCreditPriceSet { price }),
                        ]
                    }
                },
                Err(e) => {
                    &&& carbon_price_refusal(old(self).settings, price) == Some(e)
                    &&& *final(self) == *old(self)
                },
            },
    {
        self.require_not_paused()?;
        self.require_current_state()?;
        let oracle = match self.settings.carbon_oracle {
            Some(oracle) => oracle,
            None => {
                return Err(VaultError::CarbonOracleNotSet);
            },
        };
        if price <= 0 {
            return Err(VaultError::CarbonPriceNotPositive);
        }
        let mut effects = vec![Effect::RequireAuth(oracle)];
        if self.settings.carbon_credit_price != price {
            self.settings.carbon_credit_price = price;
            effects.push(Effect::Emit(Event::CarbonCreditPriceSet { price }));
        }
        Ok(Outcome { value: (), effects })
    }

    pub fn carbon_credit_price(&self) -> (r: Result<i128, VaultError>)
        ensures
            r == if self.settings.is_current() {
                Ok(self.settings.carbon_credit_price)
            } else {
                Err(VaultError::UnsupportedStateVersion)
            },
    {
        self.require_current_state()?;
        Ok(self.settings.carbon_credit_price)
    }

    /// The credits that an investment earns. Every calculation is reported.
    pub fn calculate_carbon_credits(&self, registry: &Registry, project_id: u32, amount: i128) -> (r:
        Result<Outcome<CarbonCreditCalculation>, VaultError>)
        ensures
            match r {
                Ok(out) => {
                    let credits = out.value.credits;
                    &&& carbon_credits(self.settings, registry@, project_id, amount as int)
                        == Ok::<i128, VaultError>(credits)
                    &&& out.value.project_id == project_id
                    &&& out.value.amount_invested == amount
                    &&& out.effects@ == credit_effects(project_id, amount, credits)
                },
                Err(e) => carbon_credits(self.settings, registry@, project_id, amount as int)
                    == Err::<i128, VaultError>(e),
            },
    {
        self.require_current_state()?;
        if amount <= 0 {
            return Err(VaultError::AmountNotPositive);
        }
        let project = match optional_u32(&registry.projects, project_id) {
            Some(project) => project,
            None => {
                return Err(VaultError::ProjectNotFound);
            },
        };
        let credits: i128 = scaled(amount, project.green_impact as i128, CARBON_UNIT)?;
        let value = CarbonCreditCalculation { project_id, amount_invested: amount, credits };
        let effects = vec![
            Effect::Emit(Event::CarbonCreditsCalculated { project_id, amount, credits }),
        ];
        Ok(Outcome { value, effects })
    }

    /// Issue the credits that an investment earns to `to`. The value is their number.
    pub fn issue_carbon_credits(
        &mut self,
        registry: &Registry,
        to: Address,
        project_id: u32,
        amount: i128,
    ) -> (r: Result<Outcome<i128>, VaultError>)
        ensures
            old(self)@.well_formed() ==> final(self)@.well_formed(),
            match r {
                Ok(out) => {
                    let credits = out.value;
                    &&& old(self)@.issue_refusal(registry@, to, project_id, amount as int) is None
                    &&& carbon_credits(old(self).settings, registry@, project_id, amount as int)
                        == Ok::<i128, VaultError>(credits)
                    &&& final(self)@ == old(self)@.issued(to, credits as int)
                    &&& final(self)@.credits_of(to) == old(self)@.credits_of(to) + credits
                    &&& out.effects@ == credit_effects(project_id, amount, credits)
                },
                Err(e) => {
                    &&& old(self)@.issue_refusal(registry@, to, project_id, amount as int)
                        == Some(e)
                    &&& *final(self) == *old(self)
                },
            },
    {
        broadcast use vstd::std_specs::btree::group_btree_axioms;

        let calculated = self.calculate_carbon_credits(registry, project_id, amount)?;
        let credits: i128 = calculated.value.credits;
        if credits <= 0 {
            return Err(VaultError::NoCarbonCreditsToIssue);
        }
        let held: i128 = sum(entry_u64(&self.carbon_credits, to.id, 0), credits)?;
        self.carbon_credits.insert(to.id, held);
        Ok(Outcome { value: credits, effects: calculated.effects })
    }

    /// Transfer credits between accounts. Sent to oneself, they stay as they are.
    pub fn transfer_carbon_credits(&mut self, from: Address, to: Address, amount: i128) -> (r:
        Result<Outcome<()>, VaultError>)
        ensures
            old(self)@.well_formed() ==> final(self)@.well_formed(),
            match r {
                Ok(out) => {
                    &&& old(self)@.credit_transfer_refusal(from, to, amount as int) is None
                    &&& final(self)@ == old(self)@.after_credit_transfer(from, to, amount as int)
                    &&& from != to ==> {
                        &&& final(self)@.credits_of(from) == old(self)@.credits_of(from) - amount
                        &&& final(self)@.credits_of(to) == old(self)@.credits_of(to) + amount
                    }
                    &&& out.effects@ == credit_transfer_effects(from, to, amount)
                },
                Err(e) => {
                    &&& old(self)@.credit_transfer_refusal(from, to, amount as int) == Some(e)
                    &&& *final(self) == *old(self)
                },
            },
    {
        broadcast use vstd::std_specs::btree::group_btree_axioms;

        self.require_current_state()?;
        if amount <= 0 {
            return Err(VaultError::AmountNotPositive);
        }
        let held: i128 = entry_u64(&self.carbon_credits, from.id, 0);
        if held < amount {
            return Err(VaultError::InsufficientCarbonCredits);
        }
        let before: i128 = if from == to {
            held - amount
        } else {
            entry_u64(&self.carbon_credits, to.id, 0)
        };
        let received: i128 = sum(before, amount)?;
        self.carbon_credits.insert(from.id, held - amount);
        self.carbon_credits.insert(to.id, received);
        let effects = vec![
            Effect::RequireAuth(from),
            Effect::Emit(Event::CarbonCreditsTransferred { from, to, amount }),
        ];
        Ok(Outcome { value: (), effects })
    }

    /// The credits of an account.
    pub fn carbon_credit_balance(&self, address: Address) -> (r: Result<i128, VaultError>)
        ensures
            r == if self.settings.is_current() {
                Ok(self@.credits_of(address))
            } else {
                Err(VaultError::UnsupportedStateVersion)
            },
    {
        self.require_current_state()?;
        Ok(entry_u64(&self.carbon_credits, address.id, 0))
    }
}

} // verus!
