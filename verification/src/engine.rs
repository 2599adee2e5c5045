//! The five operations of the settlement engine.
//!
//! Each function is one atomic operation against the ledger: it either
//! returns `Ok` having applied every change its contract states, or returns
//! the one matching [`ErrorCode`] having changed nothing. The ledger
//! substrate (signature checks, account storage, the transfer primitive,
//! the clock) runs outside: callers pass balances and timestamps in and
//! apply the balance movements the contracts describe.

use crate::errors::ErrorCode;
use crate::math;
use crate::registry;
use crate::types::{
    ContractStatus, EscrowAccount, MAX_CONTRACTS, MAX_TICKER_LENGTH, OptionContract, OptionType,
    UserAccount, UserContract, UserRole, status_step,
};
use vstd::prelude::*;

verus! {

/// Creates the empty per-owner registry. The ledger stores one such account
/// per owner identity and refuses a second initialization; the engine only
/// defines what a fresh registry holds.
pub fn initialize_user(owner: u64) -> (r: UserAccount)
    ensures
        r.owner == owner,
        r.contract_count == 0,
        r.contracts@ == Seq::<UserContract>::empty(),
        r.wf(),
{
    UserAccount { owner, contract_count: 0, contracts: Vec::new() }
}

/// Creates the zero-balance escrow sub-account bound to `owner`. The ledger
/// allocates it at the owner-derived address and refuses a second
/// initialization; the engine only defines what a fresh escrow holds.
pub fn initialize_escrow(owner: u64) -> (r: EscrowAccount)
    ensures
        r.owner == owner,
        r.balance == 0,
{
    EscrowAccount { owner, balance: 0 }
}

/// Moves `amount` units from the owner's spendable balance into the owner's
/// escrow. A zero amount is rejected and nothing changes; the debit of the
/// spendable balance is the ledger's side of the same atomic step. The
/// ledger conserves value, so an escrow balance plus a deposit drawn from
/// the same fixed supply always stays within the native integer width,
/// which is all the precondition asks.
pub fn deposit(escrow: &mut EscrowAccount, amount: u64) -> (r: Result<(), ErrorCode>)
    requires
        old(escrow).balance + amount <= u64::MAX,
    ensures
        amount == 0 ==> r == Err::<(), ErrorCode>(ErrorCode::InvalidDepositAmount)
            && *final(escrow) == *old(escrow),
        amount > 0 ==> r == Ok::<(), ErrorCode>(()) && final(escrow).owner == old(escrow).owner
            && final(escrow).balance == old(escrow).balance + amount,
{
    if amount == 0 {
        return Err(ErrorCode::InvalidDepositAmount);
    }
    escrow.balance = escrow.balance + amount;
    Ok(())
}

/// The underlying asset ticker fits the ledger's storage slot.
pub open spec fn ticker_fits(ua: Seq<char>) -> bool {
    crate::types::ticker_bytes(ua) <= MAX_TICKER_LENGTH
}

/// The registry kept its owner, counter and entries.
pub open spec fn registry_unchanged(pre: UserAccount, post: UserAccount) -> bool {
    &&& post.owner == pre.owner
    &&& post.contract_count == pre.contract_count
    &&& post.contracts@ == pre.contracts@
}

/// Both parties' registries can take one more entry.
pub open spec fn registries_have_room(buyer: UserAccount, seller: UserAccount) -> bool {
    buyer.contracts@.len() < MAX_CONTRACTS && seller.contracts@.len() < MAX_CONTRACTS
}

/// The buyer's escrow covers the premium and the seller's escrow covers the
/// margin requirement. The margin is only checked to be present, never
/// locked: nothing stops the seller withdrawing it again before settlement.
pub open spec fn creation_funded(
    buyer_escrow: EscrowAccount,
    seller_escrow: EscrowAccount,
    premium: u64,
    num_units: u64,
    strike_price: u64,
    margin_requirement_bps: u16,
) -> bool {
    &&& premium <= buyer_escrow.balance
    &&& math::margin_of(num_units, strike_price, margin_requirement_bps) <= seller_escrow.balance
}

/// Originates a contract between the two owners: validates the terms and both
/// registries, computes the margin requirement with checked arithmetic,
/// verifies both escrows, moves the premium out of the buyer's escrow (its
/// credit to the seller's spendable balance is the ledger's side of the same
/// atomic step), and appends the new position to both registries. On any
/// failure nothing changes and the one matching error code comes back.
pub fn create_contract(
    buyer_account: &mut UserAccount,
    seller_account: &mut UserAccount,
    buyer_escrow: &mut EscrowAccount,
    seller_escrow: &EscrowAccount,
    underlying_asset: String,
    num_units: u64,
    strike_price: u64,
    expiration_date: i64,
    option_type: OptionType,
    premium: u64,
    margin_requirement_bps: u16,
    is_test: bool,
    current_time: i64,
) -> (r: Result<OptionContract, ErrorCode>)
    requires
        old(buyer_account).wf(),
        old(seller_account).wf(),
        old(buyer_account).owner != old(seller_account).owner,
        old(buyer_escrow).owner == old(buyer_account).owner,
        seller_escrow.owner == old(seller_account).owner,
    ensures
        r == Err::<OptionContract, ErrorCode>(ErrorCode::AssetTickerTooLong)
            <==> !ticker_fits(underlying_asset@),
        r == Err::<OptionContract, ErrorCode>(ErrorCode::MaxContractsReached)
            <==> ticker_fits(underlying_asset@)
            && !registries_have_room(*old(buyer_account), *old(seller_account)),
        r == Err::<OptionContract, ErrorCode>(ErrorCode::CalculationError)
            <==> ticker_fits(underlying_asset@)
            && registries_have_room(*old(buyer_account), *old(seller_account))
            && math::margin_overflows(num_units, strike_price, margin_requirement_bps),
        r == Err::<OptionContract, ErrorCode>(ErrorCode::InsufficientBalance)
            <==> ticker_fits(underlying_asset@)
            && registries_have_room(*old(buyer_account), *old(seller_account))
            && !math::margin_overflows(num_units, strike_price, margin_requirement_bps)
            && !creation_funded(*old(buyer_escrow), *seller_escrow, premium, num_units,
                strike_price, margin_requirement_bps),
        r is Ok <==> ticker_fits(underlying_asset@)
            && registries_have_room(*old(buyer_account), *old(seller_account))
            && !math::margin_overflows(num_units, strike_price, margin_requirement_bps)
            && creation_funded(*old(buyer_escrow), *seller_escrow, premium, num_units,
                strike_price, margin_requirement_bps),
        r is Err ==> registry_unchanged(*old(buyer_account), *final(buyer_account)),
        r is Err ==> registry_unchanged(*old(seller_account), *final(seller_account)),
        r is Err ==> *final(buyer_escrow) == *old(buyer_escrow),
        r matches Ok(c) ==> {
            &&& c.contract_id == old(buyer_account).contract_count
            &&& c.creation_date == current_time
            &&& c.underlying_asset@ == underlying_asset@
            &&& c.num_units == num_units
            &&& c.strike_price == strike_price
            &&& c.expiration_date == expiration_date
            &&& c.option_type == option_type
            &&& c.premium == premium
            &&& c.buyer == old(buyer_account).owner
            &&& c.seller == old(seller_account).owner
            &&& c.buyer_escrow == old(buyer_escrow).owner
            &&& c.seller_escrow == seller_escrow.owner
            &&& c.seller_pending_balance == 0
            &&& c.buyer_pending_balance == 0
            &&& c.status == ContractStatus::Active
            &&& c.margin_requirement_bps == margin_requirement_bps
            &&& c.margin_amount == math::margin_of(num_units, strike_price, margin_requirement_bps)
            &&& c.is_test == is_test
            &&& c.wf()
        },
        r matches Ok(c) ==> {
            &&& final(buyer_escrow).owner == old(buyer_escrow).owner
            &&& final(buyer_escrow).balance == old(buyer_escrow).balance - premium
            &&& final(buyer_account).owner == old(buyer_account).owner
            &&& final(buyer_account).contract_count == old(buyer_account).contract_count + 1
            &&& final(buyer_account).contracts@ == old(buyer_account).contracts@.push(
                (UserContract {
                    contract_address: c.spec_key(),
                    role: UserRole::Buyer,
                    status: ContractStatus::Active,
                }),
            )
            &&& final(seller_account).owner == old(seller_account).owner
            &&& final(seller_account).contract_count == old(seller_account).contract_count
            &&& final(seller_account).contracts@ == old(seller_account).contracts@.push(
                (UserContract {
                    contract_address: c.spec_key(),
                    role: UserRole::Seller,
                    status: ContractStatus::Active,
                }),
            )
            &&& final(buyer_account).wf()
            &&& final(seller_account).wf()
        },
{
    let ticker_len = underlying_asset.as_str().as_bytes().len();
    if ticker_len > MAX_TICKER_LENGTH {
        return Err(ErrorCode::AssetTickerTooLong);
    }
    if buyer_account.contracts.len() >= MAX_CONTRACTS {
        return Err(ErrorCode::MaxContractsReached);
    }
    if seller_account.contracts.len() >= MAX_CONTRACTS {
        return Err(ErrorCode::MaxContractsReached);
    }
    let margin_amount = match math::compute_margin(num_units, strike_price, margin_requirement_bps) {
        Ok(m) => m,
        Err(e) => {
            return Err(e);
        },
    };
    if buyer_escrow.balance < premium {
        return Err(ErrorCode::InsufficientBalance);
    }
    if seller_escrow.balance < margin_amount {
        return Err(ErrorCode::InsufficientBalance);
    }
    // The premium leaves the buyer's escrow; the ledger credits it to the
    // seller's spendable balance in the same atomic step.
    buyer_escrow.balance = buyer_escrow.balance - premium;
    let contract = OptionContract {
        contract_id: buyer_account.contract_count,
        creation_date: current_time,
        underlying_asset,
        num_units,
        strike_price,
        expiration_date,
        option_type,
        premium,
        buyer: buyer_account.owner,
        seller: seller_account.owner,
        buyer_escrow: buyer_escrow.owner,
        seller_escrow: seller_escrow.owner,
        seller_pending_balance: 0,
        buyer_pending_balance: 0,
        status: ContractStatus::Active,
        margin_requirement_bps,
        margin_amount,
        is_test,
    };
    let key = contract.key();
    buyer_account.contracts.push(
        UserContract {
            contract_address: key,
            role: UserRole::Buyer,
            status: ContractStatus::Active,
        },
    );
    buyer_account.contract_count = buyer_account.contract_count + 1;
    seller_account.contracts.push(
        UserContract {
            contract_address: key,
            role: UserRole::Seller,
            status: ContractStatus::Active,
        },
    );
    Ok(contract)
}

/// The gates an exercise request must pass before the payoff is computed:
/// the contract is live, the caller is the buyer, and the contract either
/// runs in test mode or has reached its expiration timestamp.
pub open spec fn exercise_gates(c: OptionContract, caller: u64, current_time: i64) -> bool {
    &&& c.status == ContractStatus::Active
    &&& caller == c.buyer
    &&& (c.is_test || current_time >= c.expiration_date)
}

/// Exercises a live contract: checks the state-machine gate, the caller's
/// authority and the expiration, computes the payoff from the supplied price
/// data with checked arithmetic, freezes it on the contract as both pending
/// balances, moves the status to Exercised, and records the new status in
/// both parties' registries. On any failure nothing changes and the one
/// matching error code comes back. No value moves yet: the frozen payoff is
/// moved by [`settle`].
pub fn exercise(
    contract: &mut OptionContract,
    buyer_account: &mut UserAccount,
    seller_account: &mut UserAccount,
    caller: u64,
    underlying_price_usd: u64,
    sol_price_usd: u64,
    current_time: i64,
) -> (r: Result<(), ErrorCode>)
    requires
        old(contract).wf(),
        old(buyer_account).owner == old(contract).buyer,
        old(seller_account).owner == old(contract).seller,
        old(contract).buyer != old(contract).seller,
    ensures
        r == Err::<(), ErrorCode>(ErrorCode::ContractNotActive)
            <==> old(contract).status != ContractStatus::Active,
        r == Err::<(), ErrorCode>(ErrorCode::UnauthorizedExercise)
            <==> old(contract).status == ContractStatus::Active && caller != old(contract).buyer,
        r == Err::<(), ErrorCode>(ErrorCode::ContractNotExpired)
            <==> old(contract).status == ContractStatus::Active && caller == old(contract).buyer
            && !(old(contract).is_test || current_time >= old(contract).expiration_date),
        r == Err::<(), ErrorCode>(ErrorCode::CalculationError)
            <==> exercise_gates(*old(contract), caller, current_time)
            && math::payoff_fails(old(contract).option_type, old(contract).strike_price,
                old(contract).num_units, underlying_price_usd, sol_price_usd),
        r is Ok <==> exercise_gates(*old(contract), caller, current_time)
            && !math::payoff_fails(old(contract).option_type, old(contract).strike_price,
                old(contract).num_units, underlying_price_usd, sol_price_usd),
        r is Err ==> *final(contract) == *old(contract),
        r is Err ==> registry_unchanged(*old(buyer_account), *final(buyer_account)),
        r is Err ==> registry_unchanged(*old(seller_account), *final(seller_account)),
        r is Ok ==> *final(contract) == (OptionContract {
            status: ContractStatus::Exercised,
            seller_pending_balance: math::payoff_of(old(contract).option_type,
                old(contract).strike_price, old(contract).num_units, underlying_price_usd,
                sol_price_usd) as u64,
            buyer_pending_balance: math::payoff_of(old(contract).option_type,
                old(contract).strike_price, old(contract).num_units, underlying_price_usd,
                sol_price_usd) as u64,
            ..*old(contract)
        }),
        r is Ok ==> final(buyer_account).owner == old(buyer_account).owner && final(
            buyer_account).contract_count == old(buyer_account).contract_count && final(
            buyer_account).contracts@ == registry::mark_first(old(buyer_account).contracts@,
            old(contract).spec_key(), ContractStatus::Exercised),
        r is Ok ==> final(seller_account).owner == old(seller_account).owner && final(
            seller_account).contract_count == old(seller_account).contract_count && final(
            seller_account).contracts@ == registry::mark_first(old(seller_account).contracts@,
            old(contract).spec_key(), ContractStatus::Exercised),
        r is Ok ==> final(buyer_account).contracts@.len() == old(buyer_account).contracts@.len()
            && final(seller_account).contracts@.len() == old(seller_account).contracts@.len(),
        r is Ok ==> final(contract).wf() && status_step(old(contract).status,
            final(contract).status),
{
    if !matches!(contract.status, ContractStatus::Active) {
        return Err(ErrorCode::ContractNotActive);
    }
    if caller != contract.buyer {
        return Err(ErrorCode::UnauthorizedExercise);
    }
    if !(contract.is_test || current_time >= contract.expiration_date) {
        return Err(ErrorCode::ContractNotExpired);
    }
    let payoff = match math::compute_payoff(
        contract.option_type,
        contract.strike_price,
        contract.num_units,
        underlying_price_usd,
        sol_price_usd,
    ) {
        Ok(p) => p,
        Err(e) => {
            return Err(e);
        },
    };
    contract.seller_pending_balance = payoff;
    contract.buyer_pending_balance = payoff;
    contract.status = ContractStatus::Exercised;
    let key = contract.key();
    registry::set_contract_status(buyer_account, key, ContractStatus::Exercised);
    registry::set_contract_status(seller_account, key, ContractStatus::Exercised);
    Ok(())
}

/// Settles an exercised contract: moves the frozen payoff from the seller's
/// escrow into the buyer's escrow, zeroes both pending balances, moves the
/// status to Settled, and records the new status in both parties'
/// registries. (The buyer's escrow and the payoff are drawn from the same
/// fixed ledger supply, so their sum stays within the native integer width,
/// which is what the last precondition asks.) Anyone may trigger it: settlement is deliberately
/// permissionless once a contract is exercised. On any failure nothing
/// changes and the one matching error code comes back.
pub fn settle(
    contract: &mut OptionContract,
    buyer_account: &mut UserAccount,
    seller_account: &mut UserAccount,
    buyer_escrow: &mut EscrowAccount,
    seller_escrow: &mut EscrowAccount,
) -> (r: Result<(), ErrorCode>)
    requires
        old(contract).wf(),
        old(buyer_account).owner == old(contract).buyer,
        old(seller_account).owner == old(contract).seller,
        old(buyer_escrow).owner == old(contract).buyer,
        old(seller_escrow).owner == old(contract).seller,
        old(contract).buyer != old(contract).seller,
        old(buyer_escrow).balance + old(contract).seller_pending_balance <= u64::MAX,
    ensures
        r == Err::<(), ErrorCode>(ErrorCode::NotExercised)
            <==> old(contract).status != ContractStatus::Exercised,
        r == Err::<(), ErrorCode>(ErrorCode::NoPendingBalance)
            <==> old(contract).status == ContractStatus::Exercised
            && old(contract).seller_pending_balance == 0,
        r == Err::<(), ErrorCode>(ErrorCode::InsufficientSellerEscrow)
            <==> old(contract).status == ContractStatus::Exercised
            && old(contract).seller_pending_balance > 0
            && old(seller_escrow).balance < old(contract).seller_pending_balance,
        r is Ok <==> old(contract).status == ContractStatus::Exercised
            && old(contract).seller_pending_balance > 0
            && old(seller_escrow).balance >= old(contract).seller_pending_balance,
        r is Err ==> *final(contract) == *old(contract),
        r is Err ==> registry_unchanged(*old(buyer_account), *final(buyer_account)),
        r is Err ==> registry_unchanged(*old(seller_account), *final(seller_account)),
        r is Err ==> *final(buyer_escrow) == *old(buyer_escrow) && *final(seller_escrow) == *old(
            seller_escrow),
        r is Ok ==> *final(contract) == (OptionContract {
            status: ContractStatus::Settled,
            seller_pending_balance: 0,
            buyer_pending_balance: 0,
            ..*old(contract)
        }),
        r is Ok ==> final(seller_escrow).owner == old(seller_escrow).owner && final(
            seller_escrow).balance == old(seller_escrow).balance - old(
            contract).seller_pending_balance,
        r is Ok ==> final(buyer_escrow).owner == old(buyer_escrow).owner && final(
            buyer_escrow).balance == old(buyer_escrow).balance + old(
            contract).seller_pending_balance,
        final(buyer_escrow).balance + final(seller_escrow).balance == old(buyer_escrow).balance
            + old(seller_escrow).balance,
        r is Ok ==> final(buyer_account).owner == old(buyer_account).owner && final(
            buyer_account).contract_count == old(buyer_account).contract_count && final(
            buyer_account).contracts@ == registry::mark_first(old(buyer_account).contracts@,
            old(contract).spec_key(), ContractStatus::Settled),
        r is Ok ==> final(seller_account).owner == old(seller_account).owner && final(
            seller_account).contract_count == old(seller_account).contract_count && final(
            seller_account).contracts@ == registry::mark_first(old(seller_account).contracts@,
            old(contract).spec_key(), ContractStatus::Settled),
        r is Ok ==> final(buyer_account).contracts@.len() == old(buyer_account).contracts@.len()
            && final(seller_account).contracts@.len() == old(seller_account).contracts@.len(),
        r is Ok ==> final(contract).wf() && status_step(old(contract).status,
            final(contract).status),
{
    if !matches!(contract.status, ContractStatus::Exercised) {
        return Err(ErrorCode::NotExercised);
    }
    let pending = contract.seller_pending_balance;
    if pending == 0 {
        return Err(ErrorCode::NoPendingBalance);
    }
    if seller_escrow.balance < pending {
        return Err(ErrorCode::InsufficientSellerEscrow);
    }
    // The frozen payoff moves between the two escrows in one atomic step.
    seller_escrow.balance = seller_escrow.balance - pending;
    buyer_escrow.balance = buyer_escrow.balance + pending;
    contract.seller_pending_balance = 0;
    contract.buyer_pending_balance = 0;
    contract.status = ContractStatus::Settled;
    let key = contract.key();
    registry::set_contract_status(buyer_account, key, ContractStatus::Settled);
    registry::set_contract_status(seller_account, key, ContractStatus::Settled);
    Ok(())
}

/// Moves `amount` units out of the owner's escrow back to the owner's
/// spendable balance. Fails with `InsufficientBalance`, leaving the balance
/// unchanged, exactly when the escrow holds less than `amount`. The engine
/// does not hold back collateral that is backing an open contract's margin
/// requirement.
pub fn withdraw(escrow: &mut EscrowAccount, amount: u64) -> (r: Result<(), ErrorCode>)
    ensures
        amount > old(escrow).balance ==> r == Err::<(), ErrorCode>(ErrorCode::InsufficientBalance)
            && *final(escrow) == *old(escrow),
        amount <= old(escrow).balance ==> r == Ok::<(), ErrorCode>(()) && final(escrow).owner
            == old(escrow).owner && final(escrow).balance == old(escrow).balance - amount,
{
    if escrow.balance < amount {
        return Err(ErrorCode::InsufficientBalance);
    }
    escrow.balance = escrow.balance - amount;
    Ok(())
}

} // verus!
