use otc_escrow::asset::{Contract, ContractError, DealState, DepositAction, DEAL_EXPIRY_TIME, DISPUTE_EXPIRY_TIME};
use otc_escrow::execute::{
    add_moderator, add_post, calculate_commission, cancel_deal, confirm_bank_transfer, dispute_deal, enter_deal,
    receive, resolve_deal, update_config,
};
use otc_escrow::state::EscrowState;

fn s(x: &str) -> String {
    x.to_string()
}

fn asset() -> Contract {
    Contract::new(&s("asset_addr"), &s("asset_hash"))
}

fn market(commission_bps: u128) -> EscrowState {
    EscrowState::new(vec![s("admin")], commission_bps, asset(), Contract::new(&s("auth"), &s("auth_hash")))
}

/// A buying post by D and a deal for `amount` entered by C at time 1_000.
fn buy_deal(st: &mut EscrowState, amount: u128) -> (u128, u128) {
    let post_id = add_post(st, 1_000, &s("D"), true, true, asset(), 1_000_000, 10, s("HKD"), 7).unwrap();
    let deal_id = enter_deal(st, 1_000, &s("C"), true, post_id, amount).unwrap();
    (post_id, deal_id)
}

/// A buying deal funded by C and paid by D, awaiting C's sign-off (deadline 2_000 + window).
fn awaiting_customer_sign_off(st: &mut EscrowState, amount: u128) -> (u128, u128) {
    let (post_id, deal_id) = buy_deal(st, amount);
    receive(st, 1_500, &s("asset_addr"), &s("C"), amount, Some(DepositAction::Customer { deal_id })).unwrap();
    confirm_bank_transfer(st, 2_000, &s("D"), deal_id).unwrap();
    (post_id, deal_id)
}

#[test]
fn commission_is_floor_of_basis_points() {
    assert_eq!(calculate_commission(200_000, 250), Some(5_000));
    assert_eq!(calculate_commission(9_999, 1), Some(0));
    assert_eq!(calculate_commission(10_001, 3), Some(3));
    assert_eq!(calculate_commission(u128::MAX, 2), None);
    assert_eq!(calculate_commission(0, 10_000), Some(0));
}

#[test]
fn customer_deposit_moves_deal_to_dealer_transfer() {
    let mut st = market(100);
    let (_, deal_id) = buy_deal(&mut st, 40_000);
    receive(&mut st, 1_500, &s("asset_addr"), &s("C"), 40_000, Some(DepositAction::Customer { deal_id })).unwrap();
    let d = st.active_deals.get(&deal_id).unwrap();
    assert_eq!(d.state, DealState::PendDealerBankTransfer);
    assert!(d.customer_deposit);
    assert_eq!(d.expiry, Some(1_500 + DEAL_EXPIRY_TIME));
}

#[test]
fn mismatched_deposits_are_refused_without_change() {
    let mut st = market(100);
    let (_, deal_id) = buy_deal(&mut st, 40_000);
    let act = Some(DepositAction::Customer { deal_id });
    assert_eq!(
        receive(&mut st, 1_500, &s("asset_addr"), &s("C"), 39_999, act),
        Err(ContractError::MismatchDepositAmount(40_000, 39_999))
    );
    assert_eq!(receive(&mut st, 1_500, &s("asset_addr"), &s("X"), 40_000, act), Err(ContractError::MismatchCustomer));
    assert_eq!(receive(&mut st, 1_500, &s("other"), &s("C"), 40_000, act), Err(ContractError::InvalidDealToken {}));
    let d = st.active_deals.get(&deal_id).unwrap();
    assert_eq!(d.state, DealState::PendCustomerDeposit);
    assert!(!d.customer_deposit);
    assert_eq!(d.expiry, Some(1_000 + DEAL_EXPIRY_TIME));
}

#[test]
fn deposit_refusals_for_posts_and_missing_targets() {
    let mut st = market(100);
    let post_id = add_post(&mut st, 1_000, &s("D"), true, false, asset(), 500, 10, s("EUR"), 3).unwrap();
    let act = Some(DepositAction::Dealer { post_id });
    assert_eq!(receive(&mut st, 1, &s("asset_addr"), &s("D"), 499, act), Err(ContractError::MismatchDepositAmount(500, 499)));
    assert_eq!(receive(&mut st, 1, &s("asset_addr"), &s("C"), 500, act), Err(ContractError::MismatchDealer));
    assert_eq!(receive(&mut st, 1, &s("fake"), &s("D"), 500, act), Err(ContractError::InvalidDealToken {}));
    assert!(!st.active_posts.get(&post_id).unwrap().dealer_deposit);
    assert_eq!(receive(&mut st, 1, &s("asset_addr"), &s("D"), 500, None), Err(ContractError::NoActionProvided));
    assert_eq!(
        receive(&mut st, 1, &s("asset_addr"), &s("D"), 500, Some(DepositAction::Dealer { post_id: 9 })),
        Err(ContractError::NoMatchingPost(9))
    );
    assert_eq!(
        receive(&mut st, 1, &s("asset_addr"), &s("D"), 500, Some(DepositAction::Customer { deal_id: 4 })),
        Err(ContractError::NoMatchingDeal(4))
    );
    receive(&mut st, 1, &s("asset_addr"), &s("D"), 500, act).unwrap();
    assert_eq!(receive(&mut st, 1, &s("asset_addr"), &s("D"), 500, act), Err(ContractError::UnexpectPostState));
}

#[test]
fn deposit_to_deal_in_wrong_state_is_refused() {
    let mut st = market(100);
    let post_id = add_post(&mut st, 1_000, &s("D"), true, false, asset(), 500, 10, s("EUR"), 3).unwrap();
    receive(&mut st, 1, &s("asset_addr"), &s("D"), 500, Some(DepositAction::Dealer { post_id })).unwrap();
    let deal_id = enter_deal(&mut st, 1, &s("C"), true, post_id, 100).unwrap();
    assert_eq!(
        receive(&mut st, 1, &s("asset_addr"), &s("C"), 100, Some(DepositAction::Customer { deal_id })),
        Err(ContractError::UnexpectDealState)
    );
}

#[test]
fn confirm_and_dispute_check_the_obligated_party() {
    let mut st = market(100);
    let (_, deal_id) = buy_deal(&mut st, 40_000);
    assert_eq!(confirm_bank_transfer(&mut st, 1, &s("D"), deal_id), Err(ContractError::UnexpectDealState));
    receive(&mut st, 1_500, &s("asset_addr"), &s("C"), 40_000, Some(DepositAction::Customer { deal_id })).unwrap();
    assert_eq!(confirm_bank_transfer(&mut st, 2_000, &s("C"), deal_id), Err(ContractError::MismatchDealer));
    confirm_bank_transfer(&mut st, 2_000, &s("D"), deal_id).unwrap();
    let d = st.active_deals.get(&deal_id).unwrap();
    assert_eq!(d.state, DealState::PendCustomerSignOff);
    assert!(d.dealer_deposit);
    assert_eq!(dispute_deal(&mut st, 2_100, &s("D"), deal_id), Err(ContractError::MismatchCustomer));
    dispute_deal(&mut st, 2_100, &s("C"), deal_id).unwrap();
    let d = st.active_deals.get(&deal_id).unwrap();
    assert_eq!(d.state, DealState::Dispute);
    assert_eq!(d.expiry, Some(2_100 + DISPUTE_EXPIRY_TIME));
    assert_eq!(dispute_deal(&mut st, 2_200, &s("C"), deal_id), Err(ContractError::UnexpectDealState));
    assert_eq!(confirm_bank_transfer(&mut st, 2_200, &s("C"), 77), Err(ContractError::NoMatchingDeal(77)));
}

#[test]
fn sale_confirmation_by_wrong_party_is_refused() {
    let mut st = market(100);
    let post_id = add_post(&mut st, 1_000, &s("D"), true, false, asset(), 500, 10, s("EUR"), 3).unwrap();
    receive(&mut st, 1, &s("asset_addr"), &s("D"), 500, Some(DepositAction::Dealer { post_id })).unwrap();
    let deal_id = enter_deal(&mut st, 1, &s("C"), true, post_id, 100).unwrap();
    assert_eq!(confirm_bank_transfer(&mut st, 2, &s("D"), deal_id), Err(ContractError::MismatchCustomer));
    confirm_bank_transfer(&mut st, 2, &s("C"), deal_id).unwrap();
    assert_eq!(dispute_deal(&mut st, 3, &s("C"), deal_id), Err(ContractError::MismatchDealer));
}

#[test]
fn resolve_before_deadline_only_by_signing_party() {
    let mut st = market(100);
    let (_, deal_id) = awaiting_customer_sign_off(&mut st, 40_000);
    // the dealer is off turn until the deadline; an outsider is the wrong signer
    assert_eq!(
        resolve_deal(&mut st, 2_001, &s("D"), deal_id).unwrap_err(),
        ContractError::DealNotExpired(2_000 + DEAL_EXPIRY_TIME)
    );
    assert_eq!(resolve_deal(&mut st, 2_001, &s("X"), deal_id).unwrap_err(), ContractError::MismatchCustomer);
    assert_eq!(st.active_deals.get(&deal_id).unwrap().state, DealState::PendCustomerSignOff);
    let t = resolve_deal(&mut st, 2_001, &s("C"), deal_id).unwrap();
    // the dealer bought the asset, so the dealer receives it, less 1%
    assert_eq!(t.recipient, "D");
    assert_eq!(t.amount, 39_600);
    assert_eq!(st.revenue, 400);
}

#[test]
fn resolve_after_deadline_by_either_party_but_no_outsider() {
    let mut st = market(100);
    let (_, deal_id) = awaiting_customer_sign_off(&mut st, 40_000);
    let late = 2_000 + DEAL_EXPIRY_TIME as u64;
    assert_eq!(resolve_deal(&mut st, late, &s("X"), deal_id).unwrap_err(), ContractError::Unauthorized {});
    let t = resolve_deal(&mut st, late, &s("D"), deal_id).unwrap();
    assert_eq!(t.recipient, "D");
    assert_eq!(t.amount + st.revenue, 40_000);
    assert_eq!(resolve_deal(&mut st, late, &s("D"), deal_id).unwrap_err(), ContractError::NoMatchingDeal(deal_id));
    assert_eq!(cancel_deal(&mut st, late, &s("D"), deal_id).unwrap_err(), ContractError::NoMatchingDeal(deal_id));
}

#[test]
fn customer_resolving_sale_early_must_wait_for_deadline() {
    let mut st = market(100);
    let post_id = add_post(&mut st, 1_000, &s("D"), true, false, asset(), 500, 10, s("EUR"), 3).unwrap();
    receive(&mut st, 1, &s("asset_addr"), &s("D"), 500, Some(DepositAction::Dealer { post_id })).unwrap();
    let deal_id = enter_deal(&mut st, 10, &s("C"), true, post_id, 100).unwrap();
    confirm_bank_transfer(&mut st, 20, &s("C"), deal_id).unwrap();
    let expiry = 20 + DEAL_EXPIRY_TIME;
    assert_eq!(resolve_deal(&mut st, 21, &s("C"), deal_id).unwrap_err(), ContractError::DealNotExpired(expiry));
    assert_eq!(resolve_deal(&mut st, 21, &s("X"), deal_id).unwrap_err(), ContractError::MismatchDealer);
    assert_eq!(st.active_deals.get(&deal_id).unwrap().state, DealState::PendDealerSignOff);
    // at the deadline the customer may resolve and receives the asset
    let t = resolve_deal(&mut st, expiry as u64, &s("C"), deal_id).unwrap();
    assert_eq!(t.recipient, "C");
    assert_eq!(t.amount, 99);
}

#[test]
fn resolve_in_wrong_state_is_refused() {
    let mut st = market(100);
    let (_, deal_id) = buy_deal(&mut st, 40_000);
    assert_eq!(resolve_deal(&mut st, 1, &s("C"), deal_id).unwrap_err(), ContractError::UnexpectDealState);
}

#[test]
fn moderator_resolves_dispute_per_trade_direction() {
    let mut st = market(0);
    let (_, deal_id) = awaiting_customer_sign_off(&mut st, 40_000);
    dispute_deal(&mut st, 2_100, &s("C"), deal_id).unwrap();
    assert_eq!(resolve_deal(&mut st, 2_200, &s("C"), deal_id).unwrap_err(), ContractError::Unauthorized {});
    let t = resolve_deal(&mut st, 2_200, &s("admin"), deal_id).unwrap();
    assert_eq!(t.recipient, "D");
    assert_eq!(t.amount, 40_000);
    assert_eq!(st.revenue, 0);
    assert_eq!(st.past_deals[0].resolver, Some(s("admin")));
}

#[test]
fn moderator_cancels_dispute_back_to_depositor() {
    let mut st = market(100);
    add_moderator(&mut st, &s("admin"), s("M")).unwrap();
    let (_, deal_id) = awaiting_customer_sign_off(&mut st, 40_000);
    dispute_deal(&mut st, 2_100, &s("C"), deal_id).unwrap();
    assert_eq!(cancel_deal(&mut st, 2_200, &s("D"), deal_id).unwrap_err(), ContractError::Unauthorized {});
    let t = cancel_deal(&mut st, 2_200, &s("M"), deal_id).unwrap().unwrap();
    // the customer placed the asset in custody, so it goes back to the customer
    assert_eq!(t.recipient, "C");
    assert_eq!(t.amount, 40_000);
    assert_eq!(st.past_deals[0].state, DealState::CancelAsDispute);
    assert_eq!(st.past_deals[0].resolver, Some(s("M")));
    assert_eq!(st.revenue, 0);
}

#[test]
fn unpaid_dealer_transfer_cancelled_by_customer_only() {
    let mut st = market(100);
    let (_, deal_id) = buy_deal(&mut st, 40_000);
    receive(&mut st, 1_500, &s("asset_addr"), &s("C"), 40_000, Some(DepositAction::Customer { deal_id })).unwrap();
    let late = 1_500 + DEAL_EXPIRY_TIME as u64;
    assert_eq!(cancel_deal(&mut st, late, &s("D"), deal_id).unwrap_err(), ContractError::Unauthorized {});
    assert_eq!(
        cancel_deal(&mut st, late - 1, &s("C"), deal_id).unwrap_err(),
        ContractError::DealNotExpired(1_500 + DEAL_EXPIRY_TIME)
    );
    let t = cancel_deal(&mut st, late, &s("C"), deal_id).unwrap().unwrap();
    assert_eq!(t.recipient, "C");
    assert_eq!(t.amount, 40_000);
    assert_eq!(st.past_deals[0].state, DealState::CancelAsDealerMissTransfer);
}

#[test]
fn unpaid_customer_transfer_refunds_dealer() {
    let mut st = market(100);
    let post_id = add_post(&mut st, 1_000, &s("D"), true, false, asset(), 500, 10, s("EUR"), 3).unwrap();
    receive(&mut st, 1, &s("asset_addr"), &s("D"), 500, Some(DepositAction::Dealer { post_id })).unwrap();
    let deal_id = enter_deal(&mut st, 10, &s("C"), true, post_id, 100).unwrap();
    assert_eq!(cancel_deal(&mut st, 20, &s("X"), deal_id).unwrap_err(), ContractError::Unauthorized {});
    let t = cancel_deal(&mut st, 10 + DEAL_EXPIRY_TIME as u64, &s("D"), deal_id).unwrap().unwrap();
    assert_eq!(t.recipient, "D");
    assert_eq!(t.amount, 100);
    assert_eq!(st.past_deals[0].state, DealState::CancelAsCustomerMissTransfer);
    assert_eq!(st.active_posts.get(&post_id).unwrap().amount, 400);
}

#[test]
fn cancel_in_sign_off_state_is_refused() {
    let mut st = market(100);
    let (_, deal_id) = awaiting_customer_sign_off(&mut st, 40_000);
    assert_eq!(cancel_deal(&mut st, u64::MAX, &s("C"), deal_id).unwrap_err(), ContractError::UnexpectDealState);
}

#[test]
fn drained_post_is_removed_when_its_deal_finishes() {
    let mut st = market(100);
    let post_id = add_post(&mut st, 1_000, &s("D"), true, false, asset(), 500, 10, s("EUR"), 3).unwrap();
    receive(&mut st, 1, &s("asset_addr"), &s("D"), 500, Some(DepositAction::Dealer { post_id })).unwrap();
    let deal_id = enter_deal(&mut st, 10, &s("C"), true, post_id, 500).unwrap();
    assert_eq!(st.active_posts.get(&post_id).unwrap().amount, 0);
    confirm_bank_transfer(&mut st, 11, &s("C"), deal_id).unwrap();
    resolve_deal(&mut st, 12, &s("D"), deal_id).unwrap();
    assert!(st.active_posts.get(&post_id).is_none());
}

#[test]
fn commission_beyond_amount_is_refused_as_overflow() {
    let mut st = market(100);
    update_config(&mut st, &s("admin"), None, Some(20_000), None, None).unwrap();
    let (_, deal_id) = awaiting_customer_sign_off(&mut st, 40_000);
    assert_eq!(resolve_deal(&mut st, 2_001, &s("C"), deal_id).unwrap_err(), ContractError::Overflow);
    assert_eq!(st.active_deals.get(&deal_id).unwrap().state, DealState::PendCustomerSignOff);
    assert_eq!(st.revenue, 0);
}
