//! Every quotient of the vault, held against what it divides: rounded toward zero, by less than one
//! unit, and refused where a product is out of range and nowhere else.

use crate::arith::{proportion, quotient};
use crate::assets::{assets_for, project_returns, shares_for};
use crate::deposits::premium_of;
use crate::state::{RegistryView, Settings, VaultState};
use crate::types::{Address, Ledger, ProjectData, VaultError};
use crate::withdrawals::withdraw_limit;
use vstd::prelude::*;

verus! {

/// `q` is `a` over `b`, rounded toward zero.
pub open spec fn rounded(q: int, a: int, b: int) -> bool {
    &&& a >= 0 ==> 0 <= q && q * b <= a < (q + 1) * b
    &&& a <= 0 ==> q <= 0 && (q - 1) * b < a <= q * b
}

/// `r` is `a` over `b`, rounded toward zero, where `a` fits 128 signed bits, and an overflow
/// elsewhere.
pub open spec fn divides(r: Result<i128, VaultError>, a: int, b: int) -> bool {
    match r {
        Ok(q) => i128::MIN <= a <= i128::MAX && rounded(q as int, a, b),
        Err(e) => !(i128::MIN <= a <= i128::MAX) && e == VaultError::ArithmeticOverflow,
    }
}

/// Quotients are rounded toward zero.
pub proof fn quotients_round_toward_zero(a: int, b: int)
    requires
        b > 0,
    ensures
        rounded(quotient(a, b), a, b),
        i128::MIN <= a <= i128::MAX ==> i128::MIN <= quotient(a, b) <= i128::MAX,
{
    if a >= 0 {
        let q = a / b;
        assert(0 <= q && q * b <= a < (q + 1) * b && q <= a) by (nonlinear_arith)
            requires
                a >= 0,
                b > 0,
                q == a / b,
        ;
        if a == 0 {
            assert(q == 0) by (nonlinear_arith)
                requires
                    q * b <= 0,
                    q >= 0,
                    b > 0,
            ;
            assert((q - 1) * b < 0) by (nonlinear_arith)
                requires
                    q == 0,
                    b > 0,
            ;
        }
    } else {
        let q = (-a) / b;
        assert(0 <= q && q * b <= -a < (q + 1) * b && q <= -a) by (nonlinear_arith)
            requires
                a < 0,
                b > 0,
                q == (-a) / b,
        ;
        assert((-q - 1) * b == -((q + 1) * b) && (-q) * b == -(q * b)) by (nonlinear_arith);
    }
}

/// A proportion is `a * b / c`, rounded toward zero.
pub proof fn proportions_round_toward_zero(a: int, b: int, c: int)
    requires
        c > 0,
    ensures
        divides(proportion(a, b, c), a * b, c),
{
    quotients_round_toward_zero(a * b, c);
}

/// Shares are bought at the value of the vault: `usdc * supply / nav`, and one for one where there
/// are no shares or no value.
pub proof fn shares_are_bought_at_the_value(usdc: i128, supply: int, nav: int)
    requires
        supply >= 0,
        nav >= 0,
    ensures
        supply == 0 || nav == 0 ==> shares_for(usdc as int, supply, nav) == Ok::<i128, VaultError>(
            usdc,
        ),
        supply > 0 && nav > 0 ==> divides(
            shares_for(usdc as int, supply, nav),
            usdc * supply,
            nav,
        ),
{
    if supply > 0 && nav > 0 {
        proportions_round_toward_zero(usdc as int, supply, nav);
    }
}

/// Shares are redeemed at the value of the vault: `shares * nav / supply`, and for nothing where
/// there are no shares or no value.
pub proof fn shares_are_redeemed_at_the_value(shares: int, supply: int, nav: int)
    requires
        supply >= 0,
        nav >= 0,
    ensures
        supply == 0 || nav == 0 ==> assets_for(shares, supply, nav) == Ok::<i128, VaultError>(0),
        supply > 0 && nav > 0 ==> divides(assets_for(shares, supply, nav), shares * nav, supply),
{
    if supply > 0 && nav > 0 {
        proportions_round_toward_zero(shares, nav, supply);
    }
}

/// An investment without a recorded time returns a two-hundredth of it for each point of the two
/// scores; with one it returns that much in a year of 31,536,000 seconds, second by second.
pub proof fn a_return_accrues_by_the_second(
    investment: int,
    project: ProjectData,
    funded_at: u64,
    now: u64,
)
    requires
        investment > 0,
    ensures
        ({
            let yearly = investment * (project.credit_quality + project.green_impact);
            let since = if now > funded_at {
                now - funded_at
            } else {
                0
            };
            &&& divides(project_returns(investment, project, None, now), yearly, 200)
            &&& yearly <= i128::MAX ==> divides(
                project_returns(investment, project, Some(funded_at), now),
                yearly * since,
                6_307_200_000,
            )
            &&& yearly > i128::MAX ==> project_returns(investment, project, Some(funded_at), now)
                == Err::<i128, VaultError>(VaultError::ArithmeticOverflow)
        }),
{
    let rate = project.credit_quality + project.green_impact;
    let yearly = investment * rate;
    assert(yearly >= 0) by (nonlinear_arith)
        requires
            yearly == investment * rate,
            investment > 0,
            rate >= 0,
    ;
    quotients_round_toward_zero(yearly, 200);
    let since = if now > funded_at {
        now - funded_at
    } else {
        0
    };
    proportions_round_toward_zero(yearly, since, 6_307_200_000);
}

/// The insurance premium of a deposit is half a percent of it.
pub proof fn a_premium_is_half_a_percent(deposit: int)
    requires
        deposit >= 0,
    ensures
        rounded(premium_of(deposit), deposit * 50, 10_000),
{
    quotients_round_toward_zero(deposit * 50, 10_000);
}

/// The management fee of a deposit is the flat rate of it; from the threshold of the tier on, it is
/// the rate of the tier.
pub proof fn a_management_fee_is_its_rate(s: Settings, deposit: int)
    requires
        deposit >= 0,
    ensures
        s.volume_tier is None ==> rounded(s.fee_of(deposit), deposit * s.management_fee_bps, 10_000),
        s.volume_tier matches Some(tier) ==> rounded(
            s.fee_of(deposit),
            deposit * (if deposit < tier.threshold {
                s.management_fee_bps
            } else {
                tier.discounted_bps
            }),
            10_000,
        ),
{
    let bps = match s.volume_tier {
        None => s.management_fee_bps,
        Some(tier) => if deposit < tier.threshold {
            s.management_fee_bps
        } else {
            tier.discounted_bps
        },
    };
    assert(deposit * bps >= 0) by (nonlinear_arith)
        requires
            deposit >= 0,
            bps >= 0,
    ;
    quotients_round_toward_zero(deposit * bps, 10_000);
}

/// What buys shares is the deposit without its premium and its management fee.
pub proof fn the_rest_of_a_deposit_is_invested(s: Settings, deposit: int)
    ensures
        s.investable_of(deposit) == deposit - premium_of(deposit) - s.fee_of(deposit),
{
}

/// The fee of a flash loan is the configured rate of its amount.
pub proof fn a_flash_fee_is_its_rate(s: Settings, lent: int)
    requires
        lent >= 0,
    ensures
        divides(s.flash_fee(lent), lent * s.flash_loan_fee_bps, 10_000),
        s.flash_fee(lent) matches Ok(fee) ==> fee * 10_000 <= lent * s.flash_loan_fee_bps < (fee
            + 1) * 10_000,
{
    let bps = s.flash_loan_fee_bps as int;
    assert(lent * bps >= 0) by (nonlinear_arith)
        requires
            lent >= 0,
            bps >= 0,
    ;
    proportions_round_toward_zero(lent, bps, 10_000);
}

/// One withdrawal may take all of the liquid USDC up to a utilization of 50%, half of it up to 70%,
/// a quarter up to 90%, and a tenth from there on.
pub proof fn the_limit_falls_with_utilization(utilization_bps: u32, liquid: i128)
    ensures
        ({
            let limit = withdraw_limit(utilization_bps, liquid as int);
            &&& utilization_bps < 5_000 ==> limit == Ok::<i128, VaultError>(i128::MAX)
            &&& 5_000 <= utilization_bps < 7_000 ==> divides(limit, liquid * 50, 100)
            &&& 7_000 <= utilization_bps < 9_000 ==> divides(limit, liquid * 25, 100)
            &&& 9_000 <= utilization_bps ==> divides(limit, liquid * 10, 100)
        }),
{
    proportions_round_toward_zero(liquid as int, 50, 100);
    proportions_round_toward_zero(liquid as int, 25, 100);
    proportions_round_toward_zero(liquid as int, 10, 100);
}

impl VaultState {
    /// The return of a project: nothing where nothing is invested, a refusal where the registry
    /// does not know it, and what has accrued otherwise.
    pub proof fn a_projects_return_is_its_accrual(self, registry: RegistryView, now: u64, id: u32)
        ensures
            ({
                let r = self.returns_of(registry, now, id);
                let invested = self.project_investments.contains_key(id)
                    && self.project_investments[id] > 0;
                &&& !invested ==> r == Ok::<i128, VaultError>(0)
                &&& invested && !registry.projects.contains_key(id) ==> r == Err::<
                    i128,
                    VaultError,
                >(VaultError::ProjectNotFound)
                &&& invested && registry.projects.contains_key(id)
                    && !self.investment_timestamps.contains_key(id) ==> divides(
                    r,
                    self.project_investments[id] * (registry.projects[id].credit_quality
                        + registry.projects[id].green_impact),
                    200,
                )
                &&& invested && registry.projects.contains_key(id)
                    && self.investment_timestamps.contains_key(id) && r is Ok ==> rounded(
                    r->Ok_0 as int,
                    self.project_investments[id] * (registry.projects[id].credit_quality
                        + registry.projects[id].green_impact) * (if now
                        > self.investment_timestamps[id] {
                        now - self.investment_timestamps[id]
                    } else {
                        0
                    }),
                    6_307_200_000,
                )
                &&& invested && registry.projects.contains_key(id)
                    && self.investment_timestamps.contains_key(id) && r is Err ==> r == Err::<
                    i128,
                    VaultError,
                >(VaultError::ArithmeticOverflow)
            }),
    {
        if self.project_investments.contains_key(id) && self.project_investments[id] > 0 {
            a_return_accrues_by_the_second(
                self.project_investments[id] as int,
                registry.projects[id],
                self.investment_timestamps[id],
                now,
            );
        }
    }

    /// The expected returns of one project more are its own on top of those before it: every
    /// project counts.
    pub proof fn expected_returns_add_up(self, registry: RegistryView, now: u64, n: u32)
        requires
            n > 0,
        ensures
            ({
                let before = self.expected_returns(registry, now, (n - 1) as nat);
                let own = self.returns_of(registry, now, n);
                let all = self.expected_returns(registry, now, n as nat);
                &&& self.expected_returns(registry, now, 0) == Ok::<i128, VaultError>(0)
                &&& all is Ok ==> {
                    &&& before is Ok
                    &&& own is Ok
                    &&& all->Ok_0 == before->Ok_0 + own->Ok_0
                }
                &&& before is Ok && own is Ok && i128::MIN <= before->Ok_0 + own->Ok_0 <= i128::MAX
                    ==> all is Ok
                &&& before is Err ==> all == before
                &&& before is Ok && own is Err ==> all == own
            }),
    {
    }

    /// Where two projects are funded and no other, the expected returns are those of the one plus
    /// those of the other.
    pub proof fn two_projects_return_their_sum(
        self,
        registry: RegistryView,
        now: u64,
        a: u32,
        b: u32,
        n: u32,
    )
        requires
            1 <= a <= n,
            1 <= b <= n,
            a != b,
            forall|id: u32|
                1 <= id <= n && id != a && id != b ==> !(
                #[trigger] self.project_investments.contains_key(id)),
            self.expected_returns(registry, now, n as nat) is Ok,
        ensures
            self.returns_of(registry, now, a) is Ok,
            self.returns_of(registry, now, b) is Ok,
            self.expected_returns(registry, now, n as nat)->Ok_0 == self.returns_of(
                registry,
                now,
                a,
            )->Ok_0 + self.returns_of(registry, now, b)->Ok_0,
    {
        self.lemma_two_projects(registry, now, a, b, n, n);
    }

    proof fn lemma_two_projects(
        self,
        registry: RegistryView,
        now: u64,
        a: u32,
        b: u32,
        n: u32,
        k: u32,
    )
        requires
            1 <= a <= n,
            1 <= b <= n,
            a != b,
            k <= n,
            forall|id: u32|
                1 <= id <= n && id != a && id != b ==> !(
                #[trigger] self.project_investments.contains_key(id)),
            self.expected_returns(registry, now, k as nat) is Ok,
        ensures
            a <= k ==> self.returns_of(registry, now, a) is Ok,
            b <= k ==> self.returns_of(registry, now, b) is Ok,
            self.expected_returns(registry, now, k as nat)->Ok_0 == (if a <= k {
                self.returns_of(registry, now, a)->Ok_0 as int
            } else {
                0
            }) + (if b <= k {
                self.returns_of(registry, now, b)->Ok_0 as int
            } else {
                0
            }),
        decreases k,
    {
        if k > 0 {
            self.expected_returns_add_up(registry, now, k);
            self.lemma_two_projects(registry, now, a, b, n, (k - 1) as u32);
            self.a_projects_return_is_its_accrual(registry, now, k);
        }
    }

    /// Expected returns are refused for a funded project that the registry does not know, or for an
    /// amount out of range, and for nothing else.
    pub proof fn expected_returns_fail_for_a_reason(self, registry: RegistryView, now: u64, n: u32)
        ensures
            self.expected_returns(registry, now, n as nat) matches Err(e) ==> e
                == VaultError::ArithmeticOverflow || (e == VaultError::ProjectNotFound && exists|
                id: u32,
            |
                1 <= id <= n && #[trigger] self.project_investments.contains_key(id)
                    && !registry.projects.contains_key(id)),
        decreases n,
    {
        if n > 0 {
            self.expected_returns_add_up(registry, now, n);
            self.expected_returns_fail_for_a_reason(registry, now, (n - 1) as u32);
            self.a_projects_return_is_its_accrual(registry, now, n);
        }
    }

    /// No project is left out of the expected returns: they are no less than the return of any.
    pub proof fn no_projects_return_is_left_out(
        self,
        registry: RegistryView,
        now: u64,
        id: u32,
        n: u32,
    )
        requires
            1 <= id <= n,
            self.expected_returns(registry, now, n as nat) is Ok,
        ensures
            self.returns_of(registry, now, id) is Ok,
            self.expected_returns(registry, now, n as nat)->Ok_0 >= self.returns_of(
                registry,
                now,
                id,
            )->Ok_0,
        decreases n,
    {
        self.expected_returns_add_up(registry, now, n);
        self.expected_returns_are_not_negative(registry, now, (n - 1) as nat);
        self.a_projects_return_is_its_accrual(registry, now, n);
        if id < n {
            self.no_projects_return_is_left_out(registry, now, id, (n - 1) as u32);
            if self.project_investments.contains_key(n) && self.project_investments[n] > 0 {
                self.lemma_returns_are_not_negative(registry, now, n);
            }
        }
    }

    proof fn lemma_returns_are_not_negative(self, registry: RegistryView, now: u64, id: u32)
        requires
            self.returns_of(registry, now, id) is Ok,
        ensures
            self.returns_of(registry, now, id)->Ok_0 >= 0,
    {
        self.a_projects_return_is_its_accrual(registry, now, id);
        if self.project_investments.contains_key(id) && self.project_investments[id] > 0
            && registry.projects.contains_key(id) {
            let rate = registry.projects[id].credit_quality + registry.projects[id].green_impact;
            let yearly = self.project_investments[id] * rate;
            assert(yearly >= 0) by (nonlinear_arith)
                requires
                    yearly == self.project_investments[id] * rate,
                    self.project_investments[id] > 0,
                    rate >= 0,
            ;
            let since = if now > self.investment_timestamps[id] {
                now - self.investment_timestamps[id]
            } else {
                0
            };
            assert(yearly * since >= 0) by (nonlinear_arith)
                requires
                    yearly >= 0,
                    since >= 0,
            ;
        }
    }

    /// The net asset value is the liquid USDC, what is invested, and what that is expected to
    /// return.
    pub proof fn the_value_is_the_sum_of_its_parts(self, registry: RegistryView, now: u64)
        ensures
            ({
                let expected = self.expected_returns(registry, now, registry.total_projects as nat);
                let held = self.totals.usdc_balance + self.totals.total_investments;
                let nav = self.nav(registry, now);
                &&& nav is Ok ==> expected is Ok && nav->Ok_0 == held + expected->Ok_0
                &&& expected is Err ==> nav == expected
                &&& expected is Ok && i128::MIN <= held <= i128::MAX && i128::MIN <= held
                    + expected->Ok_0 <= i128::MAX ==> nav is Ok
                &&& expected is Ok && nav is Err ==> nav == Err::<i128, VaultError>(
                    VaultError::ArithmeticOverflow,
                )
            }),
    {
    }

    /// Conversions use the net asset value and the shares outstanding.
    pub proof fn conversions_are_at_the_value(self, registry: RegistryView, now: u64, x: i128)
        requires
            self.totals.total_supply >= 0,
            self.nav(registry, now) matches Ok(nav) ==> nav >= 0,
        ensures
            ({
                let supply = self.totals.total_supply as int;
                let nav = self.nav(registry, now);
                let bought = self.to_shares(registry, now, x as int);
                let redeemed = self.to_assets(registry, now, x as int);
                &&& nav is Err ==> bought == nav && redeemed == nav
                &&& nav is Ok && supply > 0 && nav->Ok_0 > 0 ==> divides(
                    bought,
                    x * supply,
                    nav->Ok_0 as int,
                ) && divides(redeemed, x * nav->Ok_0, supply)
                &&& nav is Ok && (supply == 0 || nav->Ok_0 == 0) ==> bought == Ok::<
                    i128,
                    VaultError,
                >(x) && redeemed == Ok::<i128, VaultError>(0)
            }),
    {
        if self.nav(registry, now) is Ok {
            let supply = self.totals.total_supply as int;
            let nav = self.nav(registry, now)->Ok_0 as int;
            shares_are_bought_at_the_value(x, supply, nav);
            shares_are_redeemed_at_the_value(x as int, supply, nav);
        }
    }

    /// A deposit buys the shares that its investable rest converts to.
    pub proof fn a_deposit_buys_what_its_rest_converts_to(
        self,
        registry: RegistryView,
        now: u64,
        deposit: int,
    )
        ensures
            self.deposit_shares(registry, now, deposit) == self.to_shares(
                registry,
                now,
                deposit - premium_of(deposit) - self.settings.fee_of(deposit),
            ),
    {
    }

    /// A withdrawal comes to the USDC that its shares convert to.
    pub proof fn a_withdrawal_comes_to_what_its_shares_convert_to(
        self,
        ledger: Ledger,
        registry: RegistryView,
        shares: int,
    )
        requires
            self.to_assets(registry, ledger.timestamp, shares) is Ok,
        ensures
            self.to_assets(registry, ledger.timestamp, shares) == Ok::<i128, VaultError>(
                self.withdraw_owed(ledger, registry, shares),
            ),
    {
    }

    /// Utilization is the invested part of the capital, in basis points.
    pub proof fn utilization_is_the_invested_part(self)
        requires
            self.totals.usdc_balance >= 0,
            self.totals.total_investments >= 0,
        ensures
            ({
                let invested = self.totals.total_investments as int;
                let capital = self.totals.usdc_balance + invested;
                &&& capital == 0 ==> self.utilization() == Ok::<u32, VaultError>(0)
                &&& capital > i128::MAX || invested * 10_000 > i128::MAX ==> self.utilization()
                    == Err::<u32, VaultError>(VaultError::ArithmeticOverflow)
                &&& 0 < capital <= i128::MAX && invested * 10_000 <= i128::MAX ==> {
                    &&& self.utilization() is Ok
                    &&& rounded(self.utilization()->Ok_0 as int, invested * 10_000, capital)
                }
            }),
    {
        let invested = self.totals.total_investments as int;
        let capital = self.totals.usdc_balance + invested;
        if 0 < capital <= i128::MAX {
            proportions_round_toward_zero(invested, 10_000, capital);
            if invested * 10_000 <= i128::MAX {
                let bps = proportion(invested, 10_000, capital)->Ok_0;
                assert(0 <= bps <= 10_000) by (nonlinear_arith)
                    requires
                        bps >= 0,
                        bps * capital <= invested * 10_000,
                        0 <= invested <= capital,
                        capital > 0,
                ;
            }
        }
    }

    /// The yield of an account is its shares times what the accumulator has gained since its last
    /// claim, over the scale of the accumulator.
    pub proof fn a_yield_is_the_shares_times_the_gain(self, account: Address)
        ensures
            ({
                let shares = if self.share_balances.contains_key(account.id) {
                    self.share_balances[account.id] as int
                } else {
                    0
                };
                let debt = if self.yield_debt.contains_key(account.id) {
                    self.yield_debt[account.id] as int
                } else {
                    0
                };
                let gain = self.totals.yield_per_share_accum - debt;
                &&& i128::MIN <= gain <= i128::MAX ==> divides(
                    self.yield_of(account),
                    shares * gain,
                    1_000_000_000_000_000_000,
                )
                &&& !(i128::MIN <= gain <= i128::MAX) ==> self.yield_of(account) == Err::<
                    i128,
                    VaultError,
                >(VaultError::ArithmeticOverflow)
            }),
    {
        let gain = self.totals.yield_per_share_accum - self.debt_of(account);
        proportions_round_toward_zero(
            self.shares_of(account) as int,
            gain,
            1_000_000_000_000_000_000,
        );
    }

    /// A yield adds to the accumulator what it comes to for one share, times the scale.
    pub proof fn a_yield_is_spread_over_the_shares(self, from: Address, paid: int)
        requires
            self.totals.total_supply > 0,
            self.yield_refusal(from, paid) is None,
        ensures
            rounded(
                self.after_yield(from, paid).totals.yield_per_share_accum
                    - self.totals.yield_per_share_accum,
                paid * 1_000_000_000_000_000_000,
                self.totals.total_supply as int,
            ),
    {
        proportions_round_toward_zero(
            paid,
            1_000_000_000_000_000_000,
            self.totals.total_supply as int,
        );
    }

    /// The share of the pool is the part of all shares that an account holds, in basis points.
    pub proof fn a_pool_share_is_the_part_held(self, account: Address)
        requires
            self.totals.total_supply >= 0,
        ensures
            ({
                let shares = if self.share_balances.contains_key(account.id) {
                    self.share_balances[account.id] as int
                } else {
                    0
                };
                let supply = self.totals.total_supply as int;
                &&& supply == 0 ==> self.pool_share(account) == Ok::<i128, VaultError>(0)
                &&& supply > 0 ==> divides(self.pool_share(account), shares * 10_000, supply)
            }),
    {
        if self.totals.total_supply > 0 {
            proportions_round_toward_zero(
                self.shares_of(account) as int,
                10_000,
                self.totals.total_supply as int,
            );
        }
    }
}

} // verus!
