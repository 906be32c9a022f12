use otc_escrow::asset::{Contract, ContractError, DepositAction, PostState, POST_EXPIRY_TIME};
use otc_escrow::execute::{add_post, cancel_post, enter_deal, receive};
use otc_escrow::state::EscrowState;

fn s(x: &str) -> String {
    x.to_string()
}

fn asset() -> Contract {
    Contract::new(&s("asset_addr"), &s("asset_hash"))
}

fn market() -> EscrowState {
    EscrowState::new(vec![s("admin")], 250, asset(), Contract::new(&s("auth"), &s("auth_hash")))
}

#[test]
fn buy_post_opens_at_once_with_fresh_ids() {
    let mut st = market();
    let a = add_post(&mut st, 100, &s("D"), true, true, asset(), 10, 1, s("USD"), 5).unwrap();
    let b = add_post(&mut st, 100, &s("E"), true, true, asset(), 20, 1, s("USD"), 5).unwrap();
    assert_eq!((a, b), (1, 2));
    let p = st.active_posts.get(&b).unwrap();
    assert_eq!(p.state, PostState::Open);
    assert_eq!(p.dealer, "E");
    assert_eq!(p.expiry, 100 + POST_EXPIRY_TIME);
    assert_eq!(st.max_post_id, 2);
}

#[test]
fn post_needs_payment_info_and_accepted_asset() {
    let mut st = market();
    assert_eq!(
        add_post(&mut st, 1, &s("D"), false, true, asset(), 10, 1, s("USD"), 5),
        Err(ContractError::MissPaymentInfo {})
    );
    let other = Contract::new(&s("asset_addr"), &s("other_hash"));
    assert_eq!(add_post(&mut st, 1, &s("D"), true, true, other, 10, 1, s("USD"), 5), Err(ContractError::InvalidDealToken {}));
    assert!(st.active_posts.is_empty());
    assert_eq!(st.max_post_id, 0);
}

#[test]
fn post_counter_at_limit_is_refused() {
    let mut st = market();
    st.max_post_id = u128::MAX;
    assert_eq!(add_post(&mut st, 1, &s("D"), true, true, asset(), 10, 1, s("USD"), 5), Err(ContractError::Overflow));
}

#[test]
fn entry_bounds_are_enforced() {
    let mut st = market();
    let post_id = add_post(&mut st, 1, &s("D"), true, true, asset(), 1_000, 100, s("USD"), 5).unwrap();
    assert_eq!(enter_deal(&mut st, 1, &s("C"), false, post_id, 200), Err(ContractError::MissPaymentInfo {}));
    assert_eq!(enter_deal(&mut st, 1, &s("C"), true, post_id, 99), Err(ContractError::AmountLessThanDealerReq));
    assert_eq!(enter_deal(&mut st, 1, &s("C"), true, post_id, 1_001), Err(ContractError::AmountMoreThanPost));
    assert_eq!(enter_deal(&mut st, 1, &s("C"), true, 5, 200), Err(ContractError::NoMatchingPost(5)));
    assert!(st.active_deals.is_empty());
}

#[test]
fn remaining_amount_is_initial_less_entries() {
    let mut st = market();
    let post_id = add_post(&mut st, 1, &s("D"), true, true, asset(), 1_000, 100, s("USD"), 5).unwrap();
    for amount in [300u128, 250, 450] {
        enter_deal(&mut st, 1, &s("C"), true, post_id, amount).unwrap();
    }
    assert_eq!(st.active_posts.get(&post_id).unwrap().amount, 0);
    assert_eq!(st.active_deals.len(), 3);
    // nothing is left, so even the minimum is now too much
    assert_eq!(enter_deal(&mut st, 1, &s("C"), true, post_id, 100), Err(ContractError::AmountMoreThanPost));
}

#[test]
fn entry_into_unfunded_sale_is_refused() {
    let mut st = market();
    let post_id = add_post(&mut st, 1, &s("D"), true, false, asset(), 1_000, 100, s("USD"), 5).unwrap();
    assert_eq!(enter_deal(&mut st, 1, &s("C"), true, post_id, 200), Err(ContractError::UnexpectPostState));
}

#[test]
fn deal_counter_at_limit_is_refused() {
    let mut st = market();
    let post_id = add_post(&mut st, 1, &s("D"), true, true, asset(), 1_000, 100, s("USD"), 5).unwrap();
    st.max_deal_id = u128::MAX;
    assert_eq!(enter_deal(&mut st, 1, &s("C"), true, post_id, 200), Err(ContractError::Overflow));
    assert_eq!(st.active_posts.get(&post_id).unwrap().amount, 1_000);
}

#[test]
fn cancelling_funded_post_refunds_remaining_amount() {
    let mut st = market();
    let post_id = add_post(&mut st, 1, &s("D"), true, false, asset(), 1_000, 100, s("USD"), 5).unwrap();
    receive(&mut st, 2, &s("asset_addr"), &s("D"), 1_000, Some(DepositAction::Dealer { post_id })).unwrap();
    enter_deal(&mut st, 3, &s("C"), true, post_id, 400).unwrap();
    assert_eq!(cancel_post(&mut st, &s("C"), post_id).unwrap_err(), ContractError::MismatchDealer);
    let t = cancel_post(&mut st, &s("D"), post_id).unwrap().unwrap();
    assert_eq!(t.recipient, "D");
    assert_eq!(t.amount, 600);
    assert!(st.active_posts.is_empty());
    assert_eq!(cancel_post(&mut st, &s("D"), post_id).unwrap_err(), ContractError::NoMatchingPost(post_id));
}

#[test]
fn cancelling_unfunded_post_moves_nothing() {
    let mut st = market();
    let post_id = add_post(&mut st, 1, &s("D"), true, true, asset(), 1_000, 100, s("USD"), 5).unwrap();
    assert!(cancel_post(&mut st, &s("D"), post_id).unwrap().is_none());
    assert!(st.active_posts.is_empty());
}
