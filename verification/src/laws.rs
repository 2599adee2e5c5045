//! The engine's global guarantees, stated and proved over the same spec
//! functions its operations promise in their contracts.

use crate::math;
use crate::registry;
use crate::types::{ContractRef, ContractStatus, OptionType, UserContract, status_step};
use vstd::prelude::*;

verus! {

/// Position of a state on the one-way lifecycle line.
pub open spec fn status_rank(s: ContractStatus) -> int {
    match s {
        ContractStatus::Active => 0,
        ContractStatus::Exercised => 1,
        ContractStatus::Settled => 2,
    }
}

/// The lifecycle is monotonic: every step the engine ever makes moves the
/// status exactly one rank forward, so no operation can return a contract to
/// an earlier state or skip one.
pub proof fn lemma_status_step_monotonic(pre: ContractStatus, post: ContractStatus)
    requires
        status_step(pre, post),
    ensures
        status_rank(post) == status_rank(pre) + 1,
{
}

/// Settled is reached only from Exercised: a contract created Active can
/// reach Settled only by being exercised first.
pub proof fn lemma_settled_only_via_exercised(pre: ContractStatus)
    requires
        status_step(pre, ContractStatus::Settled),
    ensures
        pre == ContractStatus::Exercised,
{
}

/// Settled is terminal: no step of the engine leaves it.
pub proof fn lemma_settled_is_terminal(post: ContractStatus)
    ensures
        !status_step(ContractStatus::Settled, post),
{
}

/// A registry entry tracks its contract's status: when exercise or
/// settlement touches a registry whose first entry for the contract sits at
/// index `i`, exactly that entry takes the contract's new status and every
/// other entry is untouched — the registry and the contract move in the same
/// atomic step.
pub proof fn lemma_registry_entry_tracks_status(
    s: Seq<UserContract>,
    key: ContractRef,
    st: ContractStatus,
    i: int,
)
    requires
        0 <= i < s.len(),
        s[i].contract_address == key,
        forall|j: int| 0 <= j < i ==> s[j].contract_address != key,
    ensures
        registry::mark_first(s, key, st)[i] == registry::with_status(s[i], st),
        forall|j: int|
            0 <= j < s.len() && j != i ==> registry::mark_first(s, key, st)[j] == s[j],
{
    registry::lemma_mark_first_at(s, key, st, i);
}

/// An option that expires out of the money pays exactly zero, and its payoff
/// computation cannot fail: a call at or below the strike, or a put at or
/// above it, has no intrinsic value, so no arithmetic runs at all.
pub proof fn lemma_out_of_the_money_pays_zero(
    option_type: OptionType,
    strike_price: u64,
    num_units: u64,
    underlying_price_usd: u64,
    sol_price_usd: u64,
)
    requires
        option_type == OptionType::Call ==> underlying_price_usd <= strike_price,
        option_type == OptionType::Put ==> underlying_price_usd >= strike_price,
    ensures
        math::payoff_of(option_type, strike_price, num_units, underlying_price_usd, sol_price_usd)
            == 0,
        !math::payoff_fails(option_type, strike_price, num_units, underlying_price_usd,
            sol_price_usd),
{
}

} // verus!
