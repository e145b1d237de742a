//! Yield is shared in proportion, and paid once.

use crate::constants::YIELD_SCALE;
use crate::state::VaultState;
use crate::tables::table_sum;
use crate::types::{Address, VaultError};
use vstd::prelude::*;

verus! {

/// What the accounts of a table of shares are due, together, from one step of the accumulator.
pub open spec fn distributed<K>(shares: Map<K, i128>, delta: int) -> int
    decreases shares.dom().len(),
{
    if shares.dom().finite() && shares.dom().len() > 0 {
        let k = shares.dom().choose();
        shares[k] * delta / (YIELD_SCALE as int) + distributed(shares.remove(k), delta)
    } else {
        0
    }
}

proof fn lemma_distributed<K>(shares: Map<K, i128>, delta: int)
    requires
        shares.dom().finite(),
        forall|k: K| #[trigger] shares.contains_key(k) ==> shares[k] >= 0,
        delta >= 0,
    ensures
        distributed(shares, delta) * YIELD_SCALE <= table_sum(shares) * delta,
    decreases shares.dom().len(),
{
    if shares.dom().len() > 0 {
        let k = shares.dom().choose();
        assert(shares.dom().contains(k));
        let rest = shares.remove(k);
        lemma_distributed(rest, delta);
        let held = shares[k] as int;
        let scale = YIELD_SCALE as int;
        assert((held * delta / scale) * scale <= held * delta) by (nonlinear_arith)
            requires
                held >= 0,
                delta >= 0,
                scale > 0,
        ;
        let due = held * delta / scale;
        let others = distributed(rest, delta);
        let total = table_sum(rest);
        assert((due + others) * scale <= (held + total) * delta) by (nonlinear_arith)
            requires
                due * scale <= held * delta,
                others * scale <= total * delta,
        ;
    }
}

impl VaultState {
    /// A yield gives out no more than it takes in: what all accounts together are due from it is
    /// within the amount received.
    pub proof fn a_yield_gives_out_no_more_than_it_takes_in(self, from: Address, paid: int)
        requires
            self.well_formed(),
            self.yield_refusal(from, paid) is None,
        ensures
            distributed(self.share_balances, self.yield_delta(paid)->Ok_0 as int) <= paid,
    {
        self.lemma_balance_within_supply(from);
        let supply = self.totals.total_supply as int;
        let scale = YIELD_SCALE as int;
        let delta = self.yield_delta(paid)->Ok_0 as int;
        assert(paid * scale >= 0) by (nonlinear_arith)
            requires
                paid > 0,
                scale > 0,
        ;
        assert(0 <= delta && delta * supply <= paid * scale) by (nonlinear_arith)
            requires
                delta == (paid * scale) / supply,
                paid * scale >= 0,
                supply > 0,
        ;
        lemma_distributed(self.share_balances, delta);
        let given = distributed(self.share_balances, delta);
        assert(given <= paid) by (nonlinear_arith)
            requires
                given * scale <= supply * delta,
                delta * supply <= paid * scale,
                scale > 0,
        ;
    }

    /// In a sound vault no account is due a negative yield.
    pub proof fn yield_is_not_negative(self, account: Address)
        requires
            self.well_formed(),
            self.yield_of(account) is Ok,
        ensures
            self.yield_of(account)->Ok_0 >= 0,
    {
        self.lemma_balance_within_supply(account);
        let shares = self.shares_of(account) as int;
        let since = self.totals.yield_per_share_accum - self.debt_of(account);
        assert(shares * since >= 0) by (nonlinear_arith)
            requires
                shares >= 0,
                since >= 0,
        ;
    }

    /// Yield is paid once: after a claim that pays, nothing is left to claim.
    pub proof fn yield_is_paid_once(self, from: Address)
        requires
            self.yield_claim_refusal(from) is None,
            self.yield_of(from)->Ok_0 > 0,
        ensures
            self.after_yield_claim(from).yield_of(from) == Ok::<i128, VaultError>(0),
    {
        let shares = self.shares_of(from) as int;
        assert(shares * 0 == 0) by (nonlinear_arith);
    }

    /// A claim of yield leaves what others can claim as it is.
    pub proof fn a_claim_leaves_others_alone(self, from: Address, other: Address)
        requires
            self.yield_claim_refusal(from) is None,
            from != other,
        ensures
            self.after_yield_claim(from).yield_of(other) == self.yield_of(other),
    {
    }

    /// A yield of `paid` goes to the vault, changes no shares, and gives an account that is up to
    /// date its share of the shares outstanding: no more, and less than two units short of it. An
    /// account is up to date, in particular, before the first yield.
    pub proof fn yield_is_shared_in_proportion(self, from: Address, paid: int, account: Address)
        requires
            self.well_formed(),
            self.yield_refusal(from, paid) is None,
            self.debt_of(account) == self.totals.yield_per_share_accum,
        ensures
            ({
                let after = self.after_yield(from, paid);
                let due = after.yield_of(account)->Ok_0;
                let shares = self.shares_of(account);
                let supply = self.totals.total_supply;
                &&& after.yield_of(account) is Ok
                &&& due == shares * self.yield_delta(paid)->Ok_0 / YIELD_SCALE as int
                &&& 0 <= due
                &&& due * supply <= paid * shares < (due + 2) * supply
                &&& after.share_balances == self.share_balances
                &&& after.totals.total_supply == supply
                &&& from != self.settings.vault ==> after.totals.usdc_balance
                    == self.totals.usdc_balance + paid
            }),
    {
        self.lemma_balance_within_supply(account);
        let shares = self.shares_of(account) as int;
        let supply = self.totals.total_supply as int;
        let scale = YIELD_SCALE as int;
        let delta = self.yield_delta(paid)->Ok_0 as int;
        assert(paid * scale >= 0) by (nonlinear_arith)
            requires
                paid > 0,
                scale > 0,
        ;
        assert(0 <= delta && delta * supply <= paid * scale < (delta + 1) * supply)
            by (nonlinear_arith)
            requires
                delta == (paid * scale) / supply,
                paid * scale >= 0,
                supply > 0,
        ;
        assert(0 <= shares * delta <= paid * scale) by (nonlinear_arith)
            requires
                0 <= shares <= supply,
                delta >= 0,
                delta * supply <= paid * scale,
        ;
        let due = shares * delta / scale;
        assert(0 <= due && due * scale <= shares * delta < (due + 1) * scale) by (nonlinear_arith)
            requires
                due == (shares * delta) / scale,
                shares * delta >= 0,
                scale > 0,
        ;
        assert(due <= shares * delta) by (nonlinear_arith)
            requires
                due * scale <= shares * delta,
                due >= 0,
                scale > 0,
        ;
        assert(due * supply <= paid * shares) by (nonlinear_arith)
            requires
                due * scale <= shares * delta,
                delta * supply <= paid * scale,
                shares >= 0,
                supply > 0,
                scale > 0,
        ;
        lemma_short_by_less_than_two(shares, supply, scale, delta, paid, due);
    }
}

/// Rounding the accumulator and rounding what is due take less than one unit each.
proof fn lemma_short_by_less_than_two(
    shares: int,
    supply: int,
    scale: int,
    delta: int,
    paid: int,
    due: int,
)
    requires
        0 <= shares <= supply < scale,
        supply > 0,
        paid * scale < (delta + 1) * supply,
        shares * delta < (due + 1) * scale,
    ensures
        paid * shares < (due + 2) * supply,
{
    // In units of `scale`: paid * shares * scale <= shares * (delta + 1) * supply.
    assert(shares * (paid * scale) <= shares * ((delta + 1) * supply)) by (nonlinear_arith)
        requires
            shares >= 0,
            paid * scale < (delta + 1) * supply,
    ;
    assert((shares * delta) * supply < ((due + 1) * scale) * supply) by (nonlinear_arith)
        requires
            supply > 0,
            shares * delta < (due + 1) * scale,
    ;
    assert(shares * supply <= scale * supply) by (nonlinear_arith)
        requires
            shares <= scale,
            supply > 0,
    ;
    assert(shares * ((delta + 1) * supply) == (shares * delta) * supply + shares * supply)
        by (nonlinear_arith);
    assert(((due + 1) * scale) * supply + scale * supply == ((due + 2) * supply) * scale)
        by (nonlinear_arith);
    assert(shares * (paid * scale) == (paid * shares) * scale) by (nonlinear_arith);
    assert(paid * shares < (due + 2) * supply) by (nonlinear_arith)
        requires
            (paid * shares) * scale < ((due + 2) * supply) * scale,
            scale > 0,
    ;
}

} // verus!
