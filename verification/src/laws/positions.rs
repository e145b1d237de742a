//! What the vault tells of an account agrees with what its other calls answer and do.

use crate::carbon::carbon_credits;
use crate::flows::{group_flows, usdc_flow};
use crate::laws::books::held;
use crate::laws::rounding::{divides, proportions_round_toward_zero, rounded};
use crate::state::{RegistryView, Settings, VaultState};
use crate::types::{Address, VaultError};
use crate::yields::yield_claim_effects;
use vstd::prelude::*;

verus! {

impl VaultState {
    /// A portfolio shows the shares of the account, what they redeem for, the yield that it can
    /// claim, its part of the pool, and what it has deposited in all.
    pub proof fn a_portfolio_shows_the_position(
        self,
        registry: RegistryView,
        now: u64,
        account: Address,
    )
        ensures
            ({
                let shares = held(self.share_balances, account.id);
                let value = self.to_assets(registry, now, shares);
                let due = self.yield_of(account);
                let part = self.pool_share(account);
                let gain = self.totals.yield_per_share_accum - held(self.yield_debt, account.id);
                match self.portfolio(registry, now, account) {
                    Ok(p) => {
                        &&& self.settings.state_version == 1
                        &&& p.shares == shares
                        &&& value == Ok::<i128, VaultError>(p.usdc_value)
                        &&& due == Ok::<i128, VaultError>(p.claimable_yield)
                        &&& rounded(
                            p.claimable_yield as int,
                            shares * gain,
                            1_000_000_000_000_000_000,
                        )
                        &&& part == Ok::<i128, VaultError>(p.share_of_pool_bps)
                        &&& p.total_deposited == held(self.total_deposited, account.id)
                    },
                    Err(e) => if self.settings.state_version != 1 {
                        e == VaultError::UnsupportedStateVersion
                    } else {
                        ||| value == Err::<i128, VaultError>(e)
                        ||| due == Err::<i128, VaultError>(e)
                        ||| part == Err::<i128, VaultError>(e)
                    },
                }
            }),
    {
        self.a_yield_is_the_shares_times_the_gain(account);
    }

    /// The yield that a portfolio shows is what a claim pays, to the account and out of the balance
    /// of the vault; after a claim that pays, the portfolio shows none.
    pub proof fn a_portfolio_shows_what_a_claim_pays(
        self,
        registry: RegistryView,
        now: u64,
        account: Address,
        later: u64,
    )
        requires
            self.portfolio(registry, now, account) is Ok,
            self.yield_claim_refusal(account) is None,
            account != self.settings.vault,
        ensures
            ({
                let shown = self.portfolio(registry, now, account)->Ok_0.claimable_yield;
                let after = self.after_yield_claim(account);
                let effects = yield_claim_effects(
                    self.settings.vault,
                    account,
                    self.yield_of(account)->Ok_0,
                );
                &&& shown > 0 ==> {
                    &&& usdc_flow(account, effects) == shown
                    &&& self.totals.usdc_balance - after.totals.usdc_balance == shown
                    &&& after.portfolio(registry, later, account) matches Ok(p)
                        ==> p.claimable_yield == 0
                }
                &&& shown <= 0 ==> {
                    &&& usdc_flow(account, effects) == 0
                    &&& after == self
                }
            }),
    {
        broadcast use group_flows;

        let due = self.yield_of(account)->Ok_0;
        if due > 0 {
            self.yield_is_paid_once(account);
        }
    }

    /// A claim of one account changes nothing in the portfolio of another but the value of its
    /// shares.
    pub proof fn a_claim_leaves_other_portfolios_alone(
        self,
        registry: RegistryView,
        now: u64,
        account: Address,
        other: Address,
    )
        requires
            self.portfolio(registry, now, account) is Ok,
            self.yield_claim_refusal(other) is None,
            other.id != account.id,
        ensures
            self.after_yield_claim(other).portfolio(registry, now, account) matches Ok(p)
                ==> p.claimable_yield == self.portfolio(registry, now, account)->Ok_0.claimable_yield
                && p.shares == self.portfolio(registry, now, account)->Ok_0.shares
                && p.total_deposited == self.portfolio(registry, now, account)->Ok_0.total_deposited
                && p.share_of_pool_bps == self.portfolio(
                registry,
                now,
                account,
            )->Ok_0.share_of_pool_bps,
    {
    }

    /// A health check shows the layout, whether the vault is paused, its utilization, and whether
    /// an emergency admin is named.
    pub proof fn a_health_check_shows_the_status(self)
        ensures
            match self.health() {
                Ok(h) => {
                    &&& self.settings.state_version == 1
                    &&& h.state_version == 1
                    &&& h.is_paused <==> self.settings.paused
                    &&& self.utilization() == Ok::<u32, VaultError>(h.utilization_bps)
                    &&& h.has_emergency_admin <==> self.settings.emergency_admin is Some
                },
                Err(e) => if self.settings.state_version != 1 {
                    e == VaultError::UnsupportedStateVersion
                } else {
                    self.utilization() == Err::<u32, VaultError>(e)
                },
            },
    {
    }

    /// Lists of investments show each project that they are asked for, in order, with what is
    /// invested in it.
    pub proof fn lists_show_what_is_invested(self, project_ids: Seq<u32>, n: u32, i: int)
        ensures
            self.investments_in(project_ids).len() == project_ids.len(),
            0 <= i < project_ids.len() ==> self.investments_in(project_ids)[i] == held(
                self.project_investments,
                project_ids[i],
            ),
            self.investment_list(n as nat).len() == n,
            0 <= i < n ==> self.investment_list(n as nat)[i].0 == i + 1,
            0 <= i < n ==> self.investment_list(n as nat)[i].1 == held(
                self.project_investments,
                (i + 1) as u32,
            ),
    {
    }

    /// The lock of an account ends 86,400 seconds after its last deposit.
    pub proof fn a_lock_ends_after_a_day(self, account: Address)
        ensures
            ({
                let at = self.last_deposit[account.id];
                &&& !self.last_deposit.contains_key(account.id) ==> self.lock_expiry(account)
                    == Ok::<u64, VaultError>(0)
                &&& self.last_deposit.contains_key(account.id) && at + 86_400 <= u64::MAX
                    ==> self.lock_expiry(account) == Ok::<u64, VaultError>((at + 86_400) as u64)
                &&& self.last_deposit.contains_key(account.id) && at + 86_400 > u64::MAX
                    ==> self.lock_expiry(account) == Err::<u64, VaultError>(
                    VaultError::ArithmeticOverflow,
                )
            }),
    {
    }
}

/// An investment earns one credit for each ten billion units of it, times the green impact of its
/// project.
pub proof fn credits_are_earned_by_green_impact(
    s: Settings,
    registry: RegistryView,
    project_id: u32,
    invested: int,
)
    ensures
        ({
            let r = carbon_credits(s, registry, project_id, invested);
            let known = registry.projects.contains_key(project_id);
            &&& s.state_version != 1 ==> r == Err::<i128, VaultError>(
                VaultError::UnsupportedStateVersion,
            )
            &&& s.state_version == 1 && invested <= 0 ==> r == Err::<i128, VaultError>(
                VaultError::AmountNotPositive,
            )
            &&& s.state_version == 1 && invested > 0 && !known ==> r == Err::<i128, VaultError>(
                VaultError::ProjectNotFound,
            )
            &&& s.state_version == 1 && invested > 0 && known ==> divides(
                r,
                invested * registry.projects[project_id].green_impact,
                10_000_000_000,
            )
        }),
{
    proportions_round_toward_zero(
        invested,
        registry.projects[project_id].green_impact as int,
        10_000_000_000,
    );
}

} // verus!
