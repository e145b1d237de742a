//! The value of the vault, and what a share of it is worth.

use crate::arith::{amount, divided, fits, product, proportion, quotient, scaled, sum};
use crate::constants::{ANNUAL_PERIOD_SECS, BPS_SCALE, SCORE_RATE_SCALE};
use crate::state::{InvestmentVault, Registry, RegistryView, Totals, VaultState};
use crate::tables::{entry, entry_u32, optional, optional_u32};
use crate::types::{HealthStatus, Ledger, ProjectData, VaultError};
use vstd::prelude::*;

verus! {

/// The yearly rate of a project, in units of `SCORE_RATE_SCALE`.
pub open spec fn score_rate(project: ProjectData) -> int {
    project.credit_quality + project.green_impact
}

/// Seconds between the funding of a project and `now`.
pub open spec fn elapsed(funded_at: u64, now: u64) -> int {
    if now > funded_at {
        now - funded_at
    } else {
        0
    }
}

/// What an investment is expected to return. It accrues the project's rate over the time since
/// the project was first funded. An investment without a recorded time counts the rate of a whole
/// year.
pub open spec fn project_returns(
    investment: int,
    project: ProjectData,
    funded_at: Option<u64>,
    now: u64,
) -> Result<i128, VaultError> {
    let yearly = investment * score_rate(project);
    if !fits(yearly) {
        Err(VaultError::ArithmeticOverflow)
    } else {
        match funded_at {
            None => amount(quotient(yearly, SCORE_RATE_SCALE as int)),
            Some(at) => proportion(
                yearly,
                elapsed(at, now),
                SCORE_RATE_SCALE * ANNUAL_PERIOD_SECS,
            ),
        }
    }
}

/// Shares for `assets` in a vault of value `nav` with `supply` shares outstanding. An empty
/// vault mints one for one.
pub open spec fn shares_for(assets: int, supply: int, nav: int) -> Result<i128, VaultError> {
    if supply == 0 || nav == 0 {
        amount(assets)
    } else {
        proportion(assets, supply, nav)
    }
}

/// USDC for `shares` in a vault of value `nav` with `supply` shares outstanding. An empty
/// vault redeems nothing.
pub open spec fn assets_for(shares: int, supply: int, nav: int) -> Result<i128, VaultError> {
    if supply == 0 || nav == 0 {
        Ok(0)
    } else {
        proportion(shares, nav, supply)
    }
}

impl VaultState {
    /// USDC invested in a project.
    pub open spec fn invested_in(self, project_id: u32) -> i128 {
        entry(self.project_investments, project_id, 0)
    }

    /// What the investment in one project is expected to return. A project that holds an
    /// investment has to be known to the registry.
    pub open spec fn returns_of(self, registry: RegistryView, now: u64, id: u32) -> Result<
        i128,
        VaultError,
    > {
        if self.invested_in(id) <= 0 {
            Ok(0)
        } else {
            match optional(registry.projects, id) {
                None => Err(VaultError::ProjectNotFound),
                Some(project) => project_returns(
                    self.invested_in(id) as int,
                    project,
                    optional(self.investment_timestamps, id),
                    now,
                ),
            }
        }
    }

    /// The expected returns of the projects `1..=n`, added up in order.
    pub open spec fn expected_returns(self, registry: RegistryView, now: u64, n: nat) -> Result<
        i128,
        VaultError,
    >
        decreases n,
    {
        if n == 0 {
            Ok(0)
        } else {
            match self.expected_returns(registry, now, (n - 1) as nat) {
                Err(e) => Err(e),
                Ok(before) => match self.returns_of(registry, now, n as u32) {
                    Err(e) => Err(e),
                    Ok(gain) => amount(before + gain),
                },
            }
        }
    }

    /// The net asset value: liquid USDC, investments, and their expected returns.
    pub open spec fn nav(self, registry: RegistryView, now: u64) -> Result<i128, VaultError> {
        match self.expected_returns(registry, now, registry.total_projects as nat) {
            Err(e) => Err(e),
            Ok(expected) => {
                let held = self.totals.usdc_balance + self.totals.total_investments;
                if fits(held) {
                    amount(held + expected)
                } else {
                    Err(VaultError::ArithmeticOverflow)
                }
            },
        }
    }

    /// This state, with a net asset value remembered.
    pub open spec fn caching(self, nav: i128) -> VaultState {
        self.with_totals(Totals { cached_total_assets: nav, ..self.totals })
    }

    /// Shares that `usdc` buys.
    pub open spec fn to_shares(self, registry: RegistryView, now: u64, usdc: int) -> Result<
        i128,
        VaultError,
    > {
        match self.nav(registry, now) {
            Err(e) => Err(e),
            Ok(nav) => shares_for(usdc, self.totals.total_supply as int, nav as int),
        }
    }

    /// USDC that `shares` redeem for.
    pub open spec fn to_assets(self, registry: RegistryView, now: u64, shares: int) -> Result<
        i128,
        VaultError,
    > {
        match self.nav(registry, now) {
            Err(e) => Err(e),
            Ok(nav) => assets_for(shares, self.totals.total_supply as int, nav as int),
        }
    }

    /// The part of the vault's own capital that is invested, in basis points.
    pub open spec fn utilization(self) -> Result<u32, VaultError> {
        let invested = self.totals.total_investments as int;
        let capital = self.totals.usdc_balance + invested;
        if !fits(capital) {
            Err(VaultError::ArithmeticOverflow)
        } else if capital == 0 {
            Ok(0)
        } else {
            match proportion(invested, BPS_SCALE as int, capital) {
                Err(e) => Err(e),
                Ok(bps) => Ok(bps as u32),
            }
        }
    }
}

impl VaultState {
    /// The operational status of the vault.
    pub open spec fn health(self) -> Result<HealthStatus, VaultError> {
        if !self.settings.is_current() {
            Err(VaultError::UnsupportedStateVersion)
        } else {
            match self.utilization() {
                Err(e) => Err(e),
                Ok(utilization_bps) => Ok(
                    HealthStatus {
                        state_version: self.settings.state_version,
                        is_paused: self.settings.paused,
                        utilization_bps,
                        has_emergency_admin: self.settings.emergency_admin is Some,
                    },
                ),
            }
        }
    }
}

fn returns_for(investment: i128, project: ProjectData, funded_at: Option<u64>, now: u64) -> (r:
    Result<i128, VaultError>)
    requires
        investment > 0,
    ensures
        r == project_returns(investment as int, project, funded_at, now),
{
    let rate: i128 = project.credit_quality as i128 + project.green_impact as i128;
    let yearly: i128 = product(investment, rate)?;
    match funded_at {
        None => divided(yearly, SCORE_RATE_SCALE),
        Some(at) => {
            let since: i128 = if now > at {
                (now - at) as i128
            } else {
                0
            };
            scaled(yearly, since, SCORE_RATE_SCALE * ANNUAL_PERIOD_SECS)
        },
    }
}

pub(crate) fn price_shares(assets: i128, supply: i128, nav: i128) -> (r: Result<i128, VaultError>)
    ensures
        r == shares_for(assets as int, supply as int, nav as int),
{
    if supply == 0 || nav == 0 {
        Ok(assets)
    } else {
        scaled(assets, supply, nav)
    }
}

pub(crate) fn price_assets(shares: i128, supply: i128, nav: i128) -> (r: Result<i128, VaultError>)
    ensures
        r == assets_for(shares as int, supply as int, nav as int),
{
    if supply == 0 || nav == 0 {
        Ok(0)
    } else {
        scaled(shares, nav, supply)
    }
}

impl InvestmentVault {
    /// The expected returns of all funded projects, weighted by the time since each was first
    /// funded.
    pub fn get_expected_returns(&self, ledger: &Ledger, registry: &Registry) -> (r: Result<
        i128,
        VaultError,
    >)
        ensures
            r == self@.expected_returns(
                registry@,
                ledger.timestamp,
                registry.total_projects as nat,
            ),
    {
        let mut expected: i128 = 0;
        let mut id: u32 = 0;
        while id < registry.total_projects
            invariant
                id <= registry.total_projects,
                self@.expected_returns(registry@, ledger.timestamp, id as nat) == Ok::<
                    i128,
                    VaultError,
                >(expected),
            decreases registry.total_projects - id,
        {
            id = id + 1;
            let ghost n = registry.total_projects as nat;
            proof {
                self@.lemma_expected_failure(registry@, ledger.timestamp, id as nat, n);
            }
            let investment: i128 = entry_u32(&self.project_investments, id, 0);
            if investment > 0 {
                let project = match optional_u32(&registry.projects, id) {
                    Some(project) => project,
                    None => {
                        return Err(VaultError::ProjectNotFound);
                    },
                };
                let funded_at = optional_u32(&self.investment_timestamps, id);
                let gain: i128 = returns_for(investment, project, funded_at, ledger.timestamp)?;
                expected = sum(expected, gain)?;
            }
        }
        Ok(expected)
    }

    pub(crate) fn net_asset_value(&self, ledger: &Ledger, registry: &Registry) -> (r: Result<
        i128,
        VaultError,
    >)
        ensures
            r == self@.nav(registry@, ledger.timestamp),
    {
        let expected: i128 = self.get_expected_returns(ledger, registry)?;
        let held: i128 = sum(self.totals.usdc_balance, self.totals.total_investments)?;
        sum(held, expected)
    }

    /// The net asset value of the vault, computed anew and remembered.
    pub fn total_assets(&mut self, ledger: &Ledger, registry: &Registry) -> (r: Result<
        i128,
        VaultError,
    >)
        ensures
            old(self)@.well_formed() ==> final(self)@.well_formed(),
            r == old(self)@.nav(registry@, ledger.timestamp),
            match r {
                Ok(nav) => final(self)@ == old(self)@.caching(nav),
                Err(_) => *final(self) == *old(self),
            },
    {
        let nav: i128 = self.net_asset_value(ledger, registry)?;
        self.totals.cached_total_assets = nav;
        Ok(nav)
    }

    /// The shares that `usdc_amount` buys at the current value of the vault.
    pub fn convert_to_shares(
        &mut self,
        ledger: &Ledger,
        registry: &Registry,
        usdc_amount: i128,
    ) -> (r: Result<i128, VaultError>)
        ensures
            old(self)@.well_formed() ==> final(self)@.well_formed(),
            r == if old(self).settings.is_current() {
                old(self)@.to_shares(registry@, ledger.timestamp, usdc_amount as int)
            } else {
                Err(VaultError::UnsupportedStateVersion)
            },
            match r {
                Ok(_) => final(self)@ == old(self)@.caching(
                    old(self)@.nav(registry@, ledger.timestamp)->Ok_0,
                ),
                Err(_) => *final(self) == *old(self),
            },
    {
        self.require_current_state()?;
        let nav: i128 = self.net_asset_value(ledger, registry)?;
        let shares: i128 = price_shares(usdc_amount, self.totals.total_supply, nav)?;
        self.totals.cached_total_assets = nav;
        Ok(shares)
    }

    /// The USDC that `shares_amount` redeems for at the current value of the vault.
    pub fn convert_to_assets(
        &mut self,
        ledger: &Ledger,
        registry: &Registry,
        shares_amount: i128,
    ) -> (r: Result<i128, VaultError>)
        ensures
            old(self)@.well_formed() ==> final(self)@.well_formed(),
            r == if old(self).settings.is_current() {
                old(self)@.to_assets(registry@, ledger.timestamp, shares_amount as int)
            } else {
                Err(VaultError::UnsupportedStateVersion)
            },
            match r {
                Ok(_) => final(self)@ == old(self)@.caching(
                    old(self)@.nav(registry@, ledger.timestamp)->Ok_0,
                ),
                Err(_) => *final(self) == *old(self),
            },
    {
        self.require_current_state()?;
        let nav: i128 = self.net_asset_value(ledger, registry)?;
        let assets: i128 = price_assets(shares_amount, self.totals.total_supply, nav)?;
        self.totals.cached_total_assets = nav;
        Ok(assets)
    }

    pub(crate) fn utilization(&self) -> (r: Result<u32, VaultError>)
        ensures
            r == self@.utilization(),
    {
        let invested: i128 = self.totals.total_investments;
        let capital: i128 = sum(self.totals.usdc_balance, invested)?;
        if capital == 0 {
            return Ok(0);
        }
        let bps: i128 = scaled(invested, BPS_SCALE, capital)?;
        Ok(bps as u32)
    }

    /// The part of the vault's own capital that is invested, in basis points; 0 where there is
    /// no capital.
    pub fn get_utilization_bps(&self) -> (r: Result<u32, VaultError>)
        ensures
            r == if self.settings.is_current() {
                self@.utilization()
            } else {
                Err(VaultError::UnsupportedStateVersion)
            },
    {
        self.require_current_state()?;
        self.utilization()
    }

    /// One snapshot of the operational status.
    pub fn health_check(&self) -> (r: Result<HealthStatus, VaultError>)
        ensures
            r == self@.health(),
    {
        let utilization_bps: u32 = self.get_utilization_bps()?;
        Ok(
            HealthStatus {
                state_version: self.settings.state_version,
                is_paused: self.settings.paused,
                utilization_bps,
                has_emergency_admin: self.settings.emergency_admin.is_some(),
            },
        )
    }
}

impl VaultState {
    /// A failure on the way fails the whole sum in the same way.
    pub proof fn lemma_expected_failure(self, registry: RegistryView, now: u64, k: nat, n: nat)
        requires
            k <= n,
        ensures
            self.expected_returns(registry, now, k) is Err ==> self.expected_returns(
                registry,
                now,
                n,
            ) == self.expected_returns(registry, now, k),
        decreases n,
    {
        if k < n {
            self.lemma_expected_failure(registry, now, k, (n - 1) as nat);
        }
    }
}

} // verus!
