use options_escrow::engine::{
    create_contract, deposit, exercise, initialize_escrow, initialize_user, settle, withdraw,
};
use options_escrow::errors::ErrorCode;
use options_escrow::math::compute_margin;
use options_escrow::math::compute_payoff;
use options_escrow::pda::derive_escrow;
use options_escrow::types::{ContractStatus, OptionContract, OptionType, UserRole};

const FAR_FUTURE: i64 = 2_000_000_000;
const NOW: i64 = 1_700_000_000;

fn funded_pair(
    buyer_id: u64,
    seller_id: u64,
    buyer_funds: u64,
    seller_funds: u64,
) -> (
    options_escrow::types::UserAccount,
    options_escrow::types::UserAccount,
    options_escrow::types::EscrowAccount,
    options_escrow::types::EscrowAccount,
) {
    let buyer = initialize_user(buyer_id);
    let seller = initialize_user(seller_id);
    let mut buyer_escrow = initialize_escrow(buyer_id);
    let mut seller_escrow = initialize_escrow(seller_id);
    if buyer_funds > 0 {
        deposit(&mut buyer_escrow, buyer_funds).unwrap();
    }
    if seller_funds > 0 {
        deposit(&mut seller_escrow, seller_funds).unwrap();
    }
    (buyer, seller, buyer_escrow, seller_escrow)
}

fn make_call_contract(
    buyer: &mut options_escrow::types::UserAccount,
    seller: &mut options_escrow::types::UserAccount,
    buyer_escrow: &mut options_escrow::types::EscrowAccount,
    seller_escrow: &options_escrow::types::EscrowAccount,
    is_test: bool,
) -> OptionContract {
    create_contract(
        buyer,
        seller,
        buyer_escrow,
        seller_escrow,
        String::from("SOL"),
        1,
        100,
        FAR_FUTURE,
        OptionType::Call,
        10,
        5000,
        is_test,
        NOW,
    )
    .unwrap()
}

#[test]
fn margin_formula_exact() {
    assert_eq!(compute_margin(1, 100, 5000), Ok(50));
    assert_eq!(compute_margin(10, 250, 2000), Ok(500));
    assert_eq!(compute_margin(3, 3, 3333), Ok(2));
    assert_eq!(compute_margin(0, 100, 10000), Ok(0));
}

#[test]
fn margin_overflow_is_calculation_error() {
    assert_eq!(compute_margin(u64::MAX, 2, 1), Err(ErrorCode::CalculationError));
    assert_eq!(compute_margin(u64::MAX, 1, 2), Err(ErrorCode::CalculationError));
}

#[test]
fn create_with_overflowing_terms_changes_nothing() {
    let (mut buyer, mut seller, mut be, se) = funded_pair(1, 2, 1000, 1000);
    let r = create_contract(
        &mut buyer,
        &mut seller,
        &mut be,
        &se,
        String::from("SOL"),
        u64::MAX,
        2,
        FAR_FUTURE,
        OptionType::Call,
        10,
        5000,
        true,
        NOW,
    );
    assert_eq!(r.unwrap_err(), ErrorCode::CalculationError);
    assert_eq!(be.balance, 1000);
    assert_eq!(buyer.contracts.len(), 0);
    assert_eq!(seller.contracts.len(), 0);
}

#[test]
fn end_to_end_call_scenario() {
    let (mut buyer, mut seller, mut buyer_escrow, mut seller_escrow) =
        funded_pair(1, 2, 1000, 1000);
    let mut contract = create_contract(
        &mut buyer,
        &mut seller,
        &mut buyer_escrow,
        &seller_escrow,
        String::from("SOL"),
        1,
        100,
        FAR_FUTURE,
        OptionType::Call,
        10,
        5000,
        true,
        NOW,
    )
    .unwrap();
    // margin_amount = 1 * 100 * 5000 / 10000 = 50
    assert_eq!(contract.margin_amount, 50);
    assert_eq!(contract.status, ContractStatus::Active);
    // The buyer's escrow is debited the premium immediately; the seller's
    // escrow is untouched (the margin is checked, not locked).
    assert_eq!(buyer_escrow.balance, 990);
    assert_eq!(seller_escrow.balance, 1000);
    assert_eq!(buyer.contracts.len(), 1);
    assert_eq!(buyer.contracts[0].role, UserRole::Buyer);
    assert_eq!(buyer.contracts[0].status, ContractStatus::Active);
    assert_eq!(seller.contracts.len(), 1);
    assert_eq!(seller.contracts[0].role, UserRole::Seller);
    assert_eq!(buyer.contract_count, 1);

    // payoff = (150 - 100) * 1 * 1_000_000_000 / 50 = 1_000_000_000
    let r = exercise(&mut contract, &mut buyer, &mut seller, 1, 150, 50, NOW);
    assert_eq!(r, Ok(()));
    assert_eq!(contract.status, ContractStatus::Exercised);
    assert_eq!(contract.seller_pending_balance, 1_000_000_000);
    assert_eq!(contract.buyer_pending_balance, 1_000_000_000);
    assert_eq!(buyer.contracts[0].status, ContractStatus::Exercised);
    assert_eq!(seller.contracts[0].status, ContractStatus::Exercised);

    // The margin was never locked, so the seller must fund the escrow before
    // settlement can cover the frozen payoff.
    deposit(&mut seller_escrow, 2_000_000_000).unwrap();
    let r = settle(
        &mut contract,
        &mut buyer,
        &mut seller,
        &mut buyer_escrow,
        &mut seller_escrow,
    );
    assert_eq!(r, Ok(()));
    assert_eq!(contract.status, ContractStatus::Settled);
    assert_eq!(contract.seller_pending_balance, 0);
    assert_eq!(contract.buyer_pending_balance, 0);
    assert_eq!(buyer_escrow.balance, 990 + 1_000_000_000);
    assert_eq!(seller_escrow.balance, 2_000_000_001_000 - 2_000_000_000_000 + 1_000_000_000);
    assert_eq!(buyer.contracts[0].status, ContractStatus::Settled);
    assert_eq!(seller.contracts[0].status, ContractStatus::Settled);
}

#[test]
fn settle_on_active_contract_is_not_exercised() {
    let (mut buyer, mut seller, mut be, mut se) = funded_pair(1, 2, 1000, 1000);
    let mut contract = make_call_contract(&mut buyer, &mut seller, &mut be, &se, true);
    let r = settle(&mut contract, &mut buyer, &mut seller, &mut be, &mut se);
    assert_eq!(r.unwrap_err(), ErrorCode::NotExercised);
    assert_eq!(contract.status, ContractStatus::Active);
}

#[test]
fn exercise_on_settled_contract_is_not_active() {
    let (mut buyer, mut seller, mut be, mut se) = funded_pair(1, 2, 1000, 2_000_000_000);
    let mut contract = make_call_contract(&mut buyer, &mut seller, &mut be, &se, true);
    exercise(&mut contract, &mut buyer, &mut seller, 1, 150, 50, NOW).unwrap();
    settle(&mut contract, &mut buyer, &mut seller, &mut be, &mut se).unwrap();
    assert_eq!(contract.status, ContractStatus::Settled);
    let r = exercise(&mut contract, &mut buyer, &mut seller, 1, 150, 50, NOW);
    assert_eq!(r.unwrap_err(), ErrorCode::ContractNotActive);
    assert_eq!(contract.status, ContractStatus::Settled);
}

#[test]
fn exercise_twice_is_not_active() {
    let (mut buyer, mut seller, mut be, se) = funded_pair(1, 2, 1000, 1000);
    let mut contract = make_call_contract(&mut buyer, &mut seller, &mut be, &se, true);
    exercise(&mut contract, &mut buyer, &mut seller, 1, 150, 50, NOW).unwrap();
    let r = exercise(&mut contract, &mut buyer, &mut seller, 1, 150, 50, NOW);
    assert_eq!(r.unwrap_err(), ErrorCode::ContractNotActive);
    assert_eq!(contract.status, ContractStatus::Exercised);
}

#[test]
fn exercise_before_expiration_without_test_mode_fails() {
    let (mut buyer, mut seller, mut be, se) = funded_pair(1, 2, 1000, 1000);
    let mut contract = make_call_contract(&mut buyer, &mut seller, &mut be, &se, false);
    let r = exercise(&mut contract, &mut buyer, &mut seller, 1, 150, 50, NOW);
    assert_eq!(r.unwrap_err(), ErrorCode::ContractNotExpired);
    assert_eq!(contract.status, ContractStatus::Active);
}

#[test]
fn exercise_before_expiration_in_test_mode_succeeds() {
    let (mut buyer, mut seller, mut be, se) = funded_pair(1, 2, 1000, 1000);
    let mut contract = make_call_contract(&mut buyer, &mut seller, &mut be, &se, true);
    let r = exercise(&mut contract, &mut buyer, &mut seller, 1, 150, 50, NOW);
    assert_eq!(r, Ok(()));
    assert_eq!(contract.status, ContractStatus::Exercised);
}

#[test]
fn exercise_at_expiration_without_test_mode_succeeds() {
    let (mut buyer, mut seller, mut be, se) = funded_pair(1, 2, 1000, 1000);
    let mut contract = make_call_contract(&mut buyer, &mut seller, &mut be, &se, false);
    let r = exercise(&mut contract, &mut buyer, &mut seller, 1, 150, 50, FAR_FUTURE);
    assert_eq!(r, Ok(()));
}

#[test]
fn exercise_by_non_buyer_is_unauthorized() {
    let (mut buyer, mut seller, mut be, se) = funded_pair(1, 2, 1000, 1000);
    let mut contract = make_call_contract(&mut buyer, &mut seller, &mut be, &se, true);
    let r = exercise(&mut contract, &mut buyer, &mut seller, 2, 150, 50, NOW);
    assert_eq!(r.unwrap_err(), ErrorCode::UnauthorizedExercise);
    assert_eq!(contract.status, ContractStatus::Active);
}

#[test]
fn call_payoff_at_or_below_strike_is_zero() {
    assert_eq!(compute_payoff(OptionType::Call, 100, 7, 100, 50), Ok(0));
    assert_eq!(compute_payoff(OptionType::Call, 100, 7, 40, 50), Ok(0));
}

#[test]
fn put_payoff_at_or_above_strike_is_zero() {
    assert_eq!(compute_payoff(OptionType::Put, 100, 7, 100, 50), Ok(0));
    assert_eq!(compute_payoff(OptionType::Put, 100, 7, 160, 50), Ok(0));
}

#[test]
fn put_payoff_in_the_money() {
    // (100 - 60) * 2 * 1_000_000_000 / 40 = 2_000_000_000
    assert_eq!(compute_payoff(OptionType::Put, 100, 2, 60, 40), Ok(2_000_000_000));
}

#[test]
fn payoff_division_by_zero_price_is_calculation_error() {
    assert_eq!(compute_payoff(OptionType::Call, 100, 1, 150, 0), Err(ErrorCode::CalculationError));
}

#[test]
fn payoff_overflow_is_calculation_error() {
    assert_eq!(
        compute_payoff(OptionType::Call, 1, u64::MAX, 2, 50),
        Err(ErrorCode::CalculationError)
    );
}

#[test]
fn out_of_the_money_exercise_freezes_zero_then_settle_has_nothing() {
    let (mut buyer, mut seller, mut be, mut se) = funded_pair(1, 2, 1000, 1000);
    let mut contract = make_call_contract(&mut buyer, &mut seller, &mut be, &se, true);
    // Below the strike: the call expires worthless, but the exercise itself
    // succeeds and moves the contract on with a zero payoff.
    let r = exercise(&mut contract, &mut buyer, &mut seller, 1, 90, 50, NOW);
    assert_eq!(r, Ok(()));
    assert_eq!(contract.seller_pending_balance, 0);
    let r = settle(&mut contract, &mut buyer, &mut seller, &mut be, &mut se);
    assert_eq!(r.unwrap_err(), ErrorCode::NoPendingBalance);
    assert_eq!(contract.status, ContractStatus::Exercised);
}

#[test]
fn settle_with_underfunded_seller_escrow_fails() {
    let (mut buyer, mut seller, mut be, mut se) = funded_pair(1, 2, 1000, 1000);
    let mut contract = make_call_contract(&mut buyer, &mut seller, &mut be, &se, true);
    exercise(&mut contract, &mut buyer, &mut seller, 1, 150, 50, NOW).unwrap();
    assert_eq!(contract.seller_pending_balance, 1_000_000_000);
    let r = settle(&mut contract, &mut buyer, &mut seller, &mut be, &mut se);
    assert_eq!(r.unwrap_err(), ErrorCode::InsufficientSellerEscrow);
    assert_eq!(contract.status, ContractStatus::Exercised);
    assert_eq!(se.balance, 1000);
    assert_eq!(be.balance, 990);
}

#[test]
fn deposit_zero_is_rejected() {
    let mut escrow = initialize_escrow(7);
    let r = deposit(&mut escrow, 0);
    assert_eq!(r.unwrap_err(), ErrorCode::InvalidDepositAmount);
    assert_eq!(escrow.balance, 0);
}

#[test]
fn deposit_accumulates() {
    let mut escrow = initialize_escrow(7);
    deposit(&mut escrow, 250).unwrap();
    deposit(&mut escrow, 750).unwrap();
    assert_eq!(escrow.balance, 1000);
    assert_eq!(escrow.owner, 7);
}

#[test]
fn withdraw_more_than_balance_fails_and_changes_nothing() {
    let mut escrow = initialize_escrow(7);
    deposit(&mut escrow, 500).unwrap();
    let r = withdraw(&mut escrow, 501);
    assert_eq!(r.unwrap_err(), ErrorCode::InsufficientBalance);
    assert_eq!(escrow.balance, 500);
}

#[test]
fn withdraw_within_balance_succeeds() {
    let mut escrow = initialize_escrow(7);
    deposit(&mut escrow, 500).unwrap();
    let r = withdraw(&mut escrow, 200);
    assert_eq!(r, Ok(()));
    assert_eq!(escrow.balance, 300);
    let r = withdraw(&mut escrow, 300);
    assert_eq!(r, Ok(()));
    assert_eq!(escrow.balance, 0);
}

#[test]
fn ticker_longer_than_32_bytes_is_rejected() {
    let (mut buyer, mut seller, mut be, se) = funded_pair(1, 2, 1000, 1000);
    let r = create_contract(
        &mut buyer,
        &mut seller,
        &mut be,
        &se,
        String::from("ABCDEFGHIJKLMNOPQRSTUVWXYZ0123456"),
        1,
        100,
        FAR_FUTURE,
        OptionType::Call,
        10,
        5000,
        true,
        NOW,
    );
    assert_eq!(r.unwrap_err(), ErrorCode::AssetTickerTooLong);
    assert_eq!(buyer.contracts.len(), 0);
}

#[test]
fn ticker_of_exactly_32_bytes_is_accepted() {
    let (mut buyer, mut seller, mut be, se) = funded_pair(1, 2, 1000, 1000);
    let r = create_contract(
        &mut buyer,
        &mut seller,
        &mut be,
        &se,
        String::from("ABCDEFGHIJKLMNOPQRSTUVWXYZ012345"),
        1,
        100,
        FAR_FUTURE,
        OptionType::Call,
        10,
        5000,
        true,
        NOW,
    );
    assert!(r.is_ok());
}

#[test]
fn create_without_premium_funds_fails() {
    let (mut buyer, mut seller, mut be, se) = funded_pair(1, 2, 5, 1000);
    let r = create_contract(
        &mut buyer,
        &mut seller,
        &mut be,
        &se,
        String::from("SOL"),
        1,
        100,
        FAR_FUTURE,
        OptionType::Call,
        10,
        5000,
        true,
        NOW,
    );
    assert_eq!(r.unwrap_err(), ErrorCode::InsufficientBalance);
    assert_eq!(be.balance, 5);
}

#[test]
fn create_without_seller_margin_fails() {
    let (mut buyer, mut seller, mut be, se) = funded_pair(1, 2, 1000, 49);
    let r = create_contract(
        &mut buyer,
        &mut seller,
        &mut be,
        &se,
        String::from("SOL"),
        1,
        100,
        FAR_FUTURE,
        OptionType::Call,
        10,
        5000,
        true,
        NOW,
    );
    assert_eq!(r.unwrap_err(), ErrorCode::InsufficientBalance);
}

#[test]
fn hundredth_contract_succeeds_and_hundred_first_fails() {
    let mut buyer = initialize_user(1);
    let mut buyer_escrow = initialize_escrow(1);
    deposit(&mut buyer_escrow, 1).unwrap();
    for i in 0..100u64 {
        let seller_id = 1000 + i;
        let mut seller = initialize_user(seller_id);
        let seller_escrow = initialize_escrow(seller_id);
        let r = create_contract(
            &mut buyer,
            &mut seller,
            &mut buyer_escrow,
            &seller_escrow,
            String::from("SOL"),
            1,
            1,
            FAR_FUTURE,
            OptionType::Call,
            0,
            0,
            true,
            NOW,
        );
        assert!(r.is_ok(), "creation {i} should succeed");
    }
    assert_eq!(buyer.contracts.len(), 100);
    assert_eq!(buyer.contract_count, 100);
    let mut seller = initialize_user(2000);
    let seller_escrow = initialize_escrow(2000);
    let r = create_contract(
        &mut buyer,
        &mut seller,
        &mut buyer_escrow,
        &seller_escrow,
        String::from("SOL"),
        1,
        1,
        FAR_FUTURE,
        OptionType::Call,
        0,
        0,
        true,
        NOW,
    );
    assert_eq!(r.unwrap_err(), ErrorCode::MaxContractsReached);
    assert_eq!(buyer.contracts.len(), 100);
    assert_eq!(buyer.contract_count, 100);
    assert_eq!(seller.contracts.len(), 0);
}

#[test]
fn contract_ids_count_up_per_buyer() {
    let mut buyer = initialize_user(1);
    let mut buyer_escrow = initialize_escrow(1);
    deposit(&mut buyer_escrow, 100).unwrap();
    let mut seller = initialize_user(2);
    let seller_escrow = initialize_escrow(2);
    let first = create_contract(
        &mut buyer,
        &mut seller,
        &mut buyer_escrow,
        &seller_escrow,
        String::from("SOL"),
        1,
        1,
        FAR_FUTURE,
        OptionType::Call,
        0,
        0,
        true,
        NOW,
    )
    .unwrap();
    let second = create_contract(
        &mut buyer,
        &mut seller,
        &mut buyer_escrow,
        &seller_escrow,
        String::from("ETH"),
        1,
        1,
        FAR_FUTURE,
        OptionType::Put,
        0,
        0,
        true,
        NOW,
    )
    .unwrap();
    assert_eq!(first.contract_id, 0);
    assert_eq!(second.contract_id, 1);
    assert_eq!(buyer.contracts.len(), 2);
    assert_eq!(seller.contracts.len(), 2);
    assert_eq!(seller.contract_count, 0);
}

#[test]
fn escrow_addresses_are_deterministic_and_distinct() {
    let a1 = derive_escrow(1).unwrap();
    let a1_again = derive_escrow(1).unwrap();
    let a2 = derive_escrow(2).unwrap();
    assert_eq!(a1.len(), 32);
    assert_eq!(a1, a1_again);
    assert_ne!(a1, a2);
}
