//! What the effects of a call move: USDC and shares, account by account, and what they report.

use crate::state::VaultState;
use crate::types::{Address, Effect, Event};
use vstd::prelude::*;

verus! {

/// What one effect adds to the USDC of an account.
pub open spec fn usdc_step(account: Address, effect: Effect) -> int {
    match effect {
        Effect::TransferUsdc { from, to, amount } => (if to == account {
            amount as int
        } else {
            0
        }) - (if from == account {
            amount as int
        } else {
            0
        }),
        _ => 0,
    }
}

/// What effects add, in all, to the USDC of an account.
pub open spec fn usdc_flow(account: Address, effects: Seq<Effect>) -> int
    decreases effects.len(),
{
    if effects.len() == 0 {
        0
    } else {
        usdc_flow(account, effects.drop_last()) + usdc_step(account, effects.last())
    }
}

/// The USDC that one effect takes from an account, whoever gets it.
pub open spec fn paid_step(account: Address, effect: Effect) -> int {
    match effect {
        Effect::TransferUsdc { from, amount, .. } => if from == account {
            amount as int
        } else {
            0
        },
        _ => 0,
    }
}

/// The USDC that effects take, in all, from an account.
pub open spec fn usdc_paid(account: Address, effects: Seq<Effect>) -> int
    decreases effects.len(),
{
    if effects.len() == 0 {
        0
    } else {
        usdc_paid(account, effects.drop_last()) + paid_step(account, effects.last())
    }
}

/// What one effect adds to the shares of an account.
pub open spec fn shares_step(account: Address, effect: Effect) -> int {
    match effect {
        Effect::MintShares { to, amount } => if to == account {
            amount as int
        } else {
            0
        },
        Effect::BurnShares { from, amount } => if from == account {
            -(amount as int)
        } else {
            0
        },
        Effect::BurnSharesFrom { from, amount, .. } => if from == account {
            -(amount as int)
        } else {
            0
        },
        Effect::TransferShares { from, to, amount } => (if to.address == account {
            amount as int
        } else {
            0
        }) - (if from == account {
            amount as int
        } else {
            0
        }),
        Effect::TransferSharesFrom { from, to, amount, .. } => (if to == account {
            amount as int
        } else {
            0
        }) - (if from == account {
            amount as int
        } else {
            0
        }),
        _ => 0,
    }
}

/// What effects add, in all, to the shares of an account.
pub open spec fn shares_flow(account: Address, effects: Seq<Effect>) -> int
    decreases effects.len(),
{
    if effects.len() == 0 {
        0
    } else {
        shares_flow(account, effects.drop_last()) + shares_step(account, effects.last())
    }
}

/// What one effect adds to the shares outstanding.
pub open spec fn supply_step(effect: Effect) -> int {
    match effect {
        Effect::MintShares { amount, .. } => amount as int,
        Effect::BurnShares { amount, .. } => -(amount as int),
        Effect::BurnSharesFrom { amount, .. } => -(amount as int),
        _ => 0,
    }
}

/// What effects add, in all, to the shares outstanding.
pub open spec fn supply_flow(effects: Seq<Effect>) -> int
    decreases effects.len(),
{
    if effects.len() == 0 {
        0
    } else {
        supply_flow(effects.drop_last()) + supply_step(effects.last())
    }
}

/// What an effect adds to a report.
pub open spec fn telling(told: Seq<Event>, effect: Effect) -> Seq<Event> {
    match effect {
        Effect::Emit(event) => told.push(event),
        _ => told,
    }
}

/// What effects report, in order.
pub open spec fn reported(effects: Seq<Effect>) -> Seq<Event>
    decreases effects.len(),
{
    if effects.len() == 0 {
        seq![]
    } else {
        telling(reported(effects.drop_last()), effects.last())
    }
}

/// The books of the vault and the effects agree: its USDC, every balance of shares and the shares
/// outstanding change by what the effects move.
pub open spec fn balanced(before: VaultState, after: VaultState, effects: Seq<Effect>) -> bool {
    &&& after.totals.usdc_balance == before.totals.usdc_balance + usdc_flow(
        before.settings.vault,
        effects,
    )
    &&& after.totals.total_supply == before.totals.total_supply + supply_flow(effects)
    &&& forall|account: Address| #[trigger]
        after.shares_of(account) == before.shares_of(account) + shares_flow(account, effects)
}

/// One more effect moves what it moves.
pub broadcast proof fn lemma_push(account: Address, effects: Seq<Effect>, effect: Effect)
    ensures
        #![trigger usdc_flow(account, effects.push(effect))]
        #![trigger shares_flow(account, effects.push(effect))]
        #![trigger usdc_paid(account, effects.push(effect))]
        usdc_flow(account, effects.push(effect)) == usdc_flow(account, effects) + usdc_step(
            account,
            effect,
        ),
        shares_flow(account, effects.push(effect)) == shares_flow(account, effects) + shares_step(
            account,
            effect,
        ),
        usdc_paid(account, effects.push(effect)) == usdc_paid(account, effects) + paid_step(
            account,
            effect,
        ),
{
    assert(effects.push(effect).drop_last() =~= effects);
}

pub broadcast proof fn lemma_push_supply(effects: Seq<Effect>, effect: Effect)
    ensures
        #![trigger supply_flow(effects.push(effect))]
        supply_flow(effects.push(effect)) == supply_flow(effects) + supply_step(effect),
{
    assert(effects.push(effect).drop_last() =~= effects);
}

pub broadcast proof fn lemma_push_reported(effects: Seq<Effect>, effect: Effect)
    ensures
        #![trigger reported(effects.push(effect))]
        reported(effects.push(effect)) == telling(reported(effects), effect),
{
    assert(effects.push(effect).drop_last() =~= effects);
}

/// What up to three effects move, one by one.
pub broadcast proof fn lemma_few(account: Address, effects: Seq<Effect>)
    requires
        effects.len() <= 3,
    ensures
        #![trigger usdc_flow(account, effects)]
        #![trigger shares_flow(account, effects)]
        #![trigger usdc_paid(account, effects)]
        usdc_flow(account, effects) == (if effects.len() > 0 {
            usdc_step(account, effects[0])
        } else {
            0
        }) + (if effects.len() > 1 {
            usdc_step(account, effects[1])
        } else {
            0
        }) + (if effects.len() > 2 {
            usdc_step(account, effects[2])
        } else {
            0
        }),
        shares_flow(account, effects) == (if effects.len() > 0 {
            shares_step(account, effects[0])
        } else {
            0
        }) + (if effects.len() > 1 {
            shares_step(account, effects[1])
        } else {
            0
        }) + (if effects.len() > 2 {
            shares_step(account, effects[2])
        } else {
            0
        }),
        usdc_paid(account, effects) == (if effects.len() > 0 {
            paid_step(account, effects[0])
        } else {
            0
        }) + (if effects.len() > 1 {
            paid_step(account, effects[1])
        } else {
            0
        }) + (if effects.len() > 2 {
            paid_step(account, effects[2])
        } else {
            0
        }),
{
    reveal_with_fuel(usdc_flow, 4);
    reveal_with_fuel(shares_flow, 4);
    reveal_with_fuel(usdc_paid, 4);
}

pub broadcast proof fn lemma_few_supply(effects: Seq<Effect>)
    requires
        effects.len() <= 3,
    ensures
        #![trigger supply_flow(effects)]
        supply_flow(effects) == (if effects.len() > 0 {
            supply_step(effects[0])
        } else {
            0
        }) + (if effects.len() > 1 {
            supply_step(effects[1])
        } else {
            0
        }) + (if effects.len() > 2 {
            supply_step(effects[2])
        } else {
            0
        }),
{
    reveal_with_fuel(supply_flow, 4);
}

pub broadcast proof fn lemma_few_reported(effects: Seq<Effect>)
    requires
        effects.len() <= 3,
    ensures
        #![trigger reported(effects)]
        effects.len() == 0 ==> reported(effects) == Seq::<Event>::empty(),
        effects.len() == 1 ==> reported(effects) == telling(Seq::empty(), effects[0]),
        effects.len() == 2 ==> reported(effects) == telling(
            telling(Seq::empty(), effects[0]),
            effects[1],
        ),
        effects.len() == 3 ==> reported(effects) == telling(
            telling(telling(Seq::empty(), effects[0]), effects[1]),
            effects[2],
        ),
{
    reveal_with_fuel(reported, 4);
}

/// Effects one after the other move what they move together.
pub proof fn lemma_add(account: Address, a: Seq<Effect>, b: Seq<Effect>)
    ensures
        usdc_flow(account, a + b) == usdc_flow(account, a) + usdc_flow(account, b),
        shares_flow(account, a + b) == shares_flow(account, a) + shares_flow(account, b),
        usdc_paid(account, a + b) == usdc_paid(account, a) + usdc_paid(account, b),
        supply_flow(a + b) == supply_flow(a) + supply_flow(b),
        reported(a + b) == reported(a) + reported(b),
    decreases b.len(),
{
    if b.len() == 0 {
        assert(a + b =~= a);
        assert(reported(a) + reported(b) =~= reported(a));
    } else {
        lemma_add(account, a, b.drop_last());
        assert((a + b).drop_last() =~= a + b.drop_last());
        assert(reported(a + b) =~= reported(a) + reported(b));
    }
}

/// Books that balance twice balance over both.
pub proof fn lemma_balanced_add(
    first: VaultState,
    second: VaultState,
    third: VaultState,
    a: Seq<Effect>,
    b: Seq<Effect>,
)
    requires
        balanced(first, second, a),
        balanced(second, third, b),
        first.settings.vault == second.settings.vault,
    ensures
        balanced(first, third, a + b),
{
    lemma_add(first.settings.vault, a, b);
    assert forall|account: Address| #[trigger]
        third.shares_of(account) == first.shares_of(account) + shares_flow(account, a + b) by {
        lemma_add(account, a, b);
        assert(second.shares_of(account) == first.shares_of(account) + shares_flow(account, a));
    }
}

pub broadcast group group_flows {
    lemma_push,
    lemma_push_supply,
    lemma_push_reported,
    lemma_few,
    lemma_few_supply,
    lemma_few_reported,
}

} // verus!
