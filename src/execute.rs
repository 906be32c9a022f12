//! The commands of the escrow engine.  Each one either applies its
//! transition from [`crate::model`] or refuses and changes nothing.
use vstd::prelude::*;

use crate::asset::{
    is_terminal, Contract, ContractError, DealState, DepositAction, PostState, COMMISSION_MULTIPLIER,
    DEAL_EXPIRY_TIME, DISPUTE_EXPIRY_TIME, POST_EXPIRY_TIME,
};
use crate::model::{
    add_moderator_model, add_post_model, admin_check, admin_delete_deal_model, archive_extends,
    cancel_deal_model, cancel_post_model, commission_of, confirm_bank_transfer_model,
    dispute_deal_model, emergency_withdraw_model, enter_deal_model, finish_deal,
    get_commission_model, new_deal, receive_model, remove_moderator_model, resolve_deal_model,
    update_config_model, update_deal_token_model, without,
};
use crate::state::{is_listed, Deal, EscrowModel, EscrowState, Post, Transfer};

verus! {

/// Commission on `amount` at `comm_bps` basis points, if the product fits.
pub fn calculate_commission(amount: u128, comm_bps: u128) -> (r: Option<u128>)
    ensures
        r matches Some(c) ==> c == commission_of(amount, comm_bps),
        r is None <==> amount * comm_bps > u128::MAX,
{
    match amount.checked_mul(comm_bps) {
        Some(p) => Some(p / COMMISSION_MULTIPLIER),
        None => None,
    }
}

/// Archiving a finished deal keeps the registries well formed.
proof fn lemma_finish_keeps_wf(s: EscrowModel, d: Deal)
    requires
        s.wf(),
        s.deals.contains_key(d.deal_id),
        is_terminal(d.state),
    ensures
        finish_deal(s, d).wf(),
        archive_extends(s, finish_deal(s, d)),
{
    let t = finish_deal(s, d);
    assert forall|i: int, j: int| 0 <= i < j < t.past_deals.len() implies #[trigger] t.past_deals[i].deal_id
        != #[trigger] t.past_deals[j].deal_id by {
        if j == s.past_deals.len() {
            assert(!s.deals.contains_key(s.past_deals[i].deal_id));
        }
    }
    assert forall|i: int| 0 <= i < t.past_deals.len() implies {
        let e = #[trigger] t.past_deals[i];
        &&& is_terminal(e.state)
        &&& e.deal_id <= t.max_deal_id
        &&& !t.deals.contains_key(e.deal_id)
    } by {
        if i < s.past_deals.len() {
            assert(t.past_deals[i] == s.past_deals[i]);
        }
    }
}

/// Replacing an active deal by a later stage of itself keeps the registries well formed.
proof fn lemma_update_deal_keeps_wf(s: EscrowModel, d: Deal)
    requires
        s.wf(),
        s.deals.contains_key(d.deal_id),
        !is_terminal(d.state),
        d.expiry is Some,
    ensures
        (EscrowModel { deals: s.deals.insert(d.deal_id, d), ..s }).wf(),
{
}

/// Replacing an active post by a later stage of itself keeps the registries well formed.
proof fn lemma_update_post_keeps_wf(s: EscrowModel, p: Post)
    requires
        s.wf(),
        s.posts.contains_key(p.post_id),
    ensures
        (EscrowModel { posts: s.posts.insert(p.post_id, p), ..s }).wf(),
{
}

/// Opening a deal for `amount` against an open post keeps the registries well formed.
proof fn lemma_enter_keeps_wf(s: EscrowModel, p: Post, d: Deal)
    requires
        s.wf(),
        s.posts.contains_key(p.post_id),
        s.max_deal_id < u128::MAX,
        d.deal_id == s.max_deal_id + 1,
        !is_terminal(d.state),
        d.expiry is Some,
    ensures
        (EscrowModel {
            max_deal_id: d.deal_id,
            posts: s.posts.insert(p.post_id, p),
            deals: s.deals.insert(d.deal_id, d),
            ..s
        }).wf(),
{
    let t = EscrowModel {
        max_deal_id: d.deal_id,
        posts: s.posts.insert(p.post_id, p),
        deals: s.deals.insert(d.deal_id, d),
        ..s
    };
    assert forall|i: int| 0 <= i < t.past_deals.len() implies {
        let e = #[trigger] t.past_deals[i];
        &&& is_terminal(e.state)
        &&& e.deal_id <= t.max_deal_id
        &&& !t.deals.contains_key(e.deal_id)
    } by {
        assert(s.past_deals[i].deal_id <= s.max_deal_id);
    }
}

/// Moves the finished deal `d` from the active set to the archive and drops
/// its post if nothing is left of it.
fn finish(state: &mut EscrowState, d: Deal)
    requires
        old(state)@.wf(),
        old(state)@.deals.contains_key(d.deal_id),
        is_terminal(d.state),
    ensures
        final(state)@ == finish_deal(old(state)@, d),
        final(state)@.wf(),
        archive_extends(old(state)@, final(state)@),
{
    proof {
        lemma_finish_keeps_wf(state@, d);
    }
    let post_id = d.post_id;
    state.active_deals.remove(&d.deal_id);
    state.past_deals.push(d);
    let drained = match state.active_posts.get(&post_id) {
        Some(p) => p.amount == 0,
        None => false,
    };
    if drained {
        state.active_posts.remove(&post_id);
    }
}

/// Settles a deal awaiting sign-off or in dispute: the receiver gets the
/// amount less commission, the commission is credited, the deal is archived.
pub fn resolve_deal(state: &mut EscrowState, now: u64, sender: &String, deal_id: u128) -> (r:
    Result<Transfer, ContractError>)
    requires
        old(state)@.wf(),
    ensures
        (r, final(state)@) == resolve_deal_model(old(state)@, now, *sender, deal_id),
        final(state)@.wf(),
        archive_extends(old(state)@, final(state)@),
{
    let d = match state.active_deals.get(&deal_id) {
        Some(d) => d,
        None => return Err(ContractError::NoMatchingDeal(deal_id)),
    };
    let expiry = d.expiry.unwrap();
    let late = expiry <= now as u128;
    let is_party = d.customer == *sender || d.dealer == *sender;
    let receiver = match d.state {
        DealState::PendCustomerSignOff => {
            // the customer signs off before the deadline, either side after it
            if !late && d.customer != *sender {
                if d.dealer == *sender {
                    return Err(ContractError::DealNotExpired(expiry));
                }
                return Err(ContractError::MismatchCustomer);
            }
            if late && !is_party {
                return Err(ContractError::Unauthorized {});
            }
            d.dealer.clone()
        },
        DealState::PendDealerSignOff => {
            if !late && d.dealer != *sender {
                if d.customer == *sender {
                    return Err(ContractError::DealNotExpired(expiry));
                }
                return Err(ContractError::MismatchDealer);
            }
            if late && !is_party {
                return Err(ContractError::Unauthorized {});
            }
            d.customer.clone()
        },
        DealState::Dispute => {
            if !is_listed(&state.moderators, sender) {
                return Err(ContractError::Unauthorized {});
            }
            // the asset goes where the trade meant it to go
            if d.is_dealer_buy {
                d.dealer.clone()
            } else {
                d.customer.clone()
            }
        },
        _ => return Err(ContractError::UnexpectDealState),
    };
    let commission = match calculate_commission(d.amount, state.config.deal_commission) {
        Some(c) => c,
        None => return Err(ContractError::Overflow),
    };
    if commission > d.amount {
        return Err(ContractError::Overflow);
    }
    let revenue = match state.revenue.checked_add(commission) {
        Some(v) => v,
        None => return Err(ContractError::Overflow),
    };
    let transfer = Transfer {
        recipient: receiver,
        amount: d.amount - commission,
        token: d.deal_token.copy(),
    };
    let mut resolved = d.copy();
    resolved.state = DealState::Resolve;
    resolved.resolver = Some(sender.clone());
    state.revenue = revenue;
    finish(state, resolved);
    Ok(transfer)
}

/// Cancels a deal whose deadline passed without the obligated party acting,
/// or a dispute a moderator decides against the trade; any custody is returned.
pub fn cancel_deal(state: &mut EscrowState, now: u64, sender: &String, deal_id: u128) -> (r:
    Result<Option<Transfer>, ContractError>)
    requires
        old(state)@.wf(),
    ensures
        (r, final(state)@) == cancel_deal_model(old(state)@, now, *sender, deal_id),
        final(state)@.wf(),
        archive_extends(old(state)@, final(state)@),
{
    let d = match state.active_deals.get(&deal_id) {
        Some(d) => d,
        None => return Err(ContractError::NoMatchingDeal(deal_id)),
    };
    let expiry = d.expiry.unwrap();
    let late = expiry <= now as u128;
    let is_party = d.customer == *sender || d.dealer == *sender;
    let mut cancelled = d.copy();
    let refund_to = match d.state {
        DealState::PendCustomerDeposit => {
            // nothing was deposited yet, so nothing goes back
            if !is_party {
                return Err(ContractError::Unauthorized {});
            }
            if !late {
                return Err(ContractError::DealNotExpired(expiry));
            }
            cancelled.state = DealState::CancelAsCustomerMissTransfer;
            None
        },
        DealState::PendCustomerBankTransfer => {
            // the dealer's custody from the post goes back to the dealer
            if !is_party {
                return Err(ContractError::Unauthorized {});
            }
            if !late {
                return Err(ContractError::DealNotExpired(expiry));
            }
            cancelled.state = DealState::CancelAsCustomerMissTransfer;
            Some(d.dealer.clone())
        },
        DealState::PendDealerBankTransfer => {
            // the customer deposited and the dealer never paid
            if d.customer != *sender {
                return Err(ContractError::Unauthorized {});
            }
            if !late {
                return Err(ContractError::DealNotExpired(expiry));
            }
            cancelled.state = DealState::CancelAsDealerMissTransfer;
            Some(d.customer.clone())
        },
        DealState::Dispute => {
            if !is_listed(&state.moderators, sender) {
                return Err(ContractError::Unauthorized {});
            }
            cancelled.state = DealState::CancelAsDispute;
            cancelled.resolver = Some(sender.clone());
            // back to whichever side placed the asset in custody
            if d.is_dealer_buy {
                Some(d.customer.clone())
            } else {
                Some(d.dealer.clone())
            }
        },
        _ => return Err(ContractError::UnexpectDealState),
    };
    let transfer = match refund_to {
        Some(recipient) => Some(Transfer { recipient, amount: d.amount, token: d.deal_token.copy() }),
        None => None,
    };
    finish(state, cancelled);
    Ok(transfer)
}

/// A deposit of `amount` of the asset whose contract is `token`, sent by
/// `from`: the customer's custody for a deal, or the dealer's for a post.
pub fn receive(
    state: &mut EscrowState,
    now: u64,
    token: &String,
    from: &String,
    amount: u128,
    action: Option<DepositAction>,
) -> (r: Result<(), ContractError>)
    requires
        old(state)@.wf(),
    ensures
        (r, final(state)@) == receive_model(old(state)@, now, *token, *from, amount, action),
        final(state)@.wf(),
        archive_extends(old(state)@, final(state)@),
{
    match action {
        None => Err(ContractError::NoActionProvided),
        Some(DepositAction::Customer { deal_id }) => {
            let d = match state.active_deals.get(&deal_id) {
                Some(d) => d,
                None => return Err(ContractError::NoMatchingDeal(deal_id)),
            };
            if d.state != DealState::PendCustomerDeposit {
                return Err(ContractError::UnexpectDealState);
            }
            if d.amount != amount {
                return Err(ContractError::MismatchDepositAmount(d.amount, amount));
            }
            if d.customer != *from {
                return Err(ContractError::MismatchCustomer);
            }
            if *token != d.deal_token.address {
                return Err(ContractError::InvalidDealToken {});
            }
            let mut funded = d.copy();
            funded.customer_deposit = true;
            funded.state = DealState::PendDealerBankTransfer;
            funded.expiry = Some(now as u128 + DEAL_EXPIRY_TIME);
            proof {
                lemma_update_deal_keeps_wf(state@, funded);
            }
            state.active_deals.insert(deal_id, funded);
            Ok(())
        },
        Some(DepositAction::Dealer { post_id }) => {
            let p = match state.active_posts.get(&post_id) {
                Some(p) => p,
                None => return Err(ContractError::NoMatchingPost(post_id)),
            };
            if p.state != PostState::PendDealerDeposit {
                return Err(ContractError::UnexpectPostState);
            }
            if p.amount != amount {
                return Err(ContractError::MismatchDepositAmount(p.amount, amount));
            }
            if p.dealer != *from {
                return Err(ContractError::MismatchDealer);
            }
            if *token != p.deal_token.address {
                return Err(ContractError::InvalidDealToken {});
            }
            let mut funded = p.copy();
            funded.dealer_deposit = true;
            funded.state = PostState::Open;
            proof {
                lemma_update_post_keeps_wf(state@, funded);
            }
            state.active_posts.insert(post_id, funded);
            Ok(())
        },
    }
}

/// Publishes a post; a dealer who sells must deposit before it can be traded.
/// `has_payment_info` tells whether `sender` has registered payment details.
pub fn add_post(
    state: &mut EscrowState,
    now: u64,
    sender: &String,
    has_payment_info: bool,
    is_dealer_buy: bool,
    deal_token: Contract,
    amount: u128,
    min_amount: u128,
    settle_currency: String,
    settle_price: u128,
) -> (r: Result<u128, ContractError>)
    requires
        old(state)@.wf(),
    ensures
        (r, final(state)@) == add_post_model(
            old(state)@,
            now,
            *sender,
            has_payment_info,
            is_dealer_buy,
            deal_token,
            amount,
            min_amount,
            settle_currency,
            settle_price,
        ),
        final(state)@.wf(),
        archive_extends(old(state)@, final(state)@),
{
    if !has_payment_info {
        return Err(ContractError::MissPaymentInfo {});
    }
    if state.max_post_id == u128::MAX {
        return Err(ContractError::Overflow);
    }
    let config = &state.config;
    if !deal_token.same_as(&config.deal_token_a) && !deal_token.same_as(&config.deal_token_b)
        && !deal_token.same_as(&config.deal_token_c) {
        return Err(ContractError::InvalidDealToken {});
    }
    let new_id = state.max_post_id + 1;
    let post = Post {
        post_id: new_id,
        is_dealer_buy,
        deal_token,
        amount,
        min_amount,
        settle_currency,
        settle_price,
        dealer_deposit: false,
        dealer: sender.clone(),
        // a selling dealer has to place the asset in custody first
        state: if is_dealer_buy {
            PostState::Open
        } else {
            PostState::PendDealerDeposit
        },
        expiry: now as u128 + POST_EXPIRY_TIME,
    };
    state.max_post_id = new_id;
    state.active_posts.insert(new_id, post);
    Ok(new_id)
}

/// Withdraws a post; a dealer who had deposited gets the remaining amount back.
pub fn cancel_post(state: &mut EscrowState, sender: &String, post_id: u128) -> (r: Result<
    Option<Transfer>,
    ContractError,
>)
    requires
        old(state)@.wf(),
    ensures
        (r, final(state)@) == cancel_post_model(old(state)@, *sender, post_id),
        final(state)@.wf(),
        archive_extends(old(state)@, final(state)@),
{
    let p = match state.active_posts.get(&post_id) {
        Some(p) => p,
        None => return Err(ContractError::NoMatchingPost(post_id)),
    };
    if p.dealer != *sender {
        return Err(ContractError::MismatchDealer);
    }
    let refund = if p.dealer_deposit {
        Some(Transfer { recipient: p.dealer.clone(), amount: p.amount, token: p.deal_token.copy() })
    } else {
        None
    };
    state.active_posts.remove(&post_id);
    Ok(refund)
}

/// Opens a deal for `amount` against an open post, taking that amount off the post.
/// `has_payment_info` tells whether `sender` has registered payment details.
pub fn enter_deal(
    state: &mut EscrowState,
    now: u64,
    sender: &String,
    has_payment_info: bool,
    post_id: u128,
    amount: u128,
) -> (r: Result<u128, ContractError>)
    requires
        old(state)@.wf(),
    ensures
        (r, final(state)@) == enter_deal_model(
            old(state)@,
            now,
            *sender,
            has_payment_info,
            post_id,
            amount,
        ),
        final(state)@.wf(),
        archive_extends(old(state)@, final(state)@),
{
    if !has_payment_info {
        return Err(ContractError::MissPaymentInfo {});
    }
    let p = match state.active_posts.get(&post_id) {
        Some(p) => p,
        None => return Err(ContractError::NoMatchingPost(post_id)),
    };
    if p.state != PostState::Open {
        return Err(ContractError::UnexpectPostState);
    }
    if amount < p.min_amount {
        return Err(ContractError::AmountLessThanDealerReq);
    }
    if amount > p.amount {
        return Err(ContractError::AmountMoreThanPost);
    }
    if state.max_deal_id == u128::MAX {
        return Err(ContractError::Overflow);
    }
    let new_id = state.max_deal_id + 1;
    let deal = Deal {
        deal_id: new_id,
        post_id: p.post_id,
        is_dealer_buy: p.is_dealer_buy,
        deal_token: p.deal_token.copy(),
        amount,
        settle_currency: p.settle_currency.clone(),
        settle_price: p.settle_price,
        // a selling dealer's custody on the post already covers this deal
        dealer_deposit: p.dealer_deposit,
        customer_deposit: false,
        dealer: p.dealer.clone(),
        customer: sender.clone(),
        state: if p.is_dealer_buy {
            DealState::PendCustomerDeposit
        } else {
            DealState::PendCustomerBankTransfer
        },
        resolver: None,
        expiry: Some(now as u128 + DEAL_EXPIRY_TIME),
    };
    let mut rest = p.copy();
    rest.amount = p.amount - amount;
    proof {
        assert(deal == new_deal(state@.posts[post_id], new_id, amount, *sender, now));
        lemma_enter_keeps_wf(state@, rest, deal);
    }
    state.max_deal_id = new_id;
    state.active_posts.insert(post_id, rest);
    state.active_deals.insert(new_id, deal);
    Ok(new_id)
}

/// Records that the party owing the fiat leg has paid it.
pub fn confirm_bank_transfer(state: &mut EscrowState, now: u64, sender: &String, deal_id: u128) -> (r:
    Result<(), ContractError>)
    requires
        old(state)@.wf(),
    ensures
        (r, final(state)@) == confirm_bank_transfer_model(old(state)@, now, *sender, deal_id),
        final(state)@.wf(),
        archive_extends(old(state)@, final(state)@),
{
    let d = match state.active_deals.get(&deal_id) {
        Some(d) => d,
        None => return Err(ContractError::NoMatchingDeal(deal_id)),
    };
    let mut paid = d.copy();
    match d.state {
        DealState::PendCustomerBankTransfer => {
            if d.customer != *sender {
                return Err(ContractError::MismatchCustomer);
            }
            paid.customer_deposit = true;
            paid.state = DealState::PendDealerSignOff;
        },
        DealState::PendDealerBankTransfer => {
            if d.dealer != *sender {
                return Err(ContractError::MismatchDealer);
            }
            paid.dealer_deposit = true;
            paid.state = DealState::PendCustomerSignOff;
        },
        _ => return Err(ContractError::UnexpectDealState),
    }
    paid.expiry = Some(now as u128 + DEAL_EXPIRY_TIME);
    proof {
        lemma_update_deal_keeps_wf(state@, paid);
    }
    state.active_deals.insert(deal_id, paid);
    Ok(())
}

/// The party that has to sign off contests the deal instead.
pub fn dispute_deal(state: &mut EscrowState, now: u64, sender: &String, deal_id: u128) -> (r: Result<
    (),
    ContractError,
>)
    requires
        old(state)@.wf(),
    ensures
        (r, final(state)@) == dispute_deal_model(old(state)@, now, *sender, deal_id),
        final(state)@.wf(),
        archive_extends(old(state)@, final(state)@),
{
    let d = match state.active_deals.get(&deal_id) {
        Some(d) => d,
        None => return Err(ContractError::NoMatchingDeal(deal_id)),
    };
    match d.state {
        DealState::PendCustomerSignOff => {
            if d.customer != *sender {
                return Err(ContractError::MismatchCustomer);
            }
        },
        DealState::PendDealerSignOff => {
            if d.dealer != *sender {
                return Err(ContractError::MismatchDealer);
            }
        },
        _ => return Err(ContractError::UnexpectDealState),
    }
    let mut disputed = d.copy();
    disputed.state = DealState::Dispute;
    disputed.expiry = Some(now as u128 + DISPUTE_EXPIRY_TIME);
    proof {
        lemma_update_deal_keeps_wf(state@, disputed);
    }
    state.active_deals.insert(deal_id, disputed);
    Ok(())
}

/// Administrative override: pays the whole amount of a funded deal to the
/// calling admin and drops the deal, without commission or archive entry.
pub fn emergency_withdraw(state: &mut EscrowState, sender: &String, deal_id: u128) -> (r: Result<
    Transfer,
    ContractError,
>)
    requires
        old(state)@.wf(),
    ensures
        (r, final(state)@) == emergency_withdraw_model(old(state)@, *sender, deal_id),
        final(state)@.wf(),
        archive_extends(old(state)@, final(state)@),
{
    if !is_listed(&state.config.admins, sender) {
        return Err(ContractError::Unauthorized {});
    }
    let d = match state.active_deals.get(&deal_id) {
        Some(d) => d,
        None => return Err(ContractError::NoMatchingDeal(deal_id)),
    };
    if d.is_dealer_buy && !d.customer_deposit {
        return Err(ContractError::NoAmountToWithdraw);
    }
    if !d.is_dealer_buy && !d.dealer_deposit {
        return Err(ContractError::NoAmountToWithdraw);
    }
    let transfer = Transfer { recipient: sender.clone(), amount: d.amount, token: d.deal_token.copy() };
    state.active_deals.remove(&deal_id);
    Ok(transfer)
}

/// Administrative override: drops a deal with no payout at all.
pub fn admin_delete_deal(state: &mut EscrowState, sender: &String, deal_id: u128) -> (r: Result<
    (),
    ContractError,
>)
    requires
        old(state)@.wf(),
    ensures
        (r, final(state)@) == admin_delete_deal_model(old(state)@, *sender, deal_id),
        final(state)@.wf(),
        archive_extends(old(state)@, final(state)@),
{
    if !is_listed(&state.config.admins, sender) {
        return Err(ContractError::Unauthorized {});
    }
    if !state.active_deals.contains_key(&deal_id) {
        return Err(ContractError::NoMatchingDeal(deal_id));
    }
    state.active_deals.remove(&deal_id);
    Ok(())
}

/// Sweeps the accrued commission to the calling admin and zeroes the ledger.
pub fn get_commission(state: &mut EscrowState, sender: &String) -> (r: Result<
    Transfer,
    ContractError,
>)
    requires
        old(state)@.wf(),
    ensures
        (r, final(state)@) == get_commission_model(old(state)@, *sender),
        final(state)@.wf(),
        archive_extends(old(state)@, final(state)@),
{
    if !is_listed(&state.config.admins, sender) {
        return Err(ContractError::Unauthorized {});
    }
    let transfer = Transfer {
        recipient: sender.clone(),
        amount: state.revenue,
        token: state.config.deal_token_a.copy(),
    };
    state.revenue = 0;
    Ok(transfer)
}

/// Changes the settings given; only an admin may.
pub fn update_config(
    state: &mut EscrowState,
    sender: &String,
    admins: Option<Vec<String>>,
    deal_commission: Option<u128>,
    query_auth: Option<Contract>,
    governance: Option<Contract>,
) -> (r: Result<(), ContractError>)
    requires
        old(state)@.wf(),
    ensures
        (r, final(state)@) == update_config_model(
            old(state)@,
            *sender,
            admins,
            deal_commission,
            query_auth,
            governance,
        ),
        final(state)@.wf(),
        archive_extends(old(state)@, final(state)@),
{
    if !is_listed(&state.config.admins, sender) {
        return Err(ContractError::Unauthorized {});
    }
    if let Some(admins) = admins {
        state.config.admins = admins;
    }
    if let Some(deal_commission) = deal_commission {
        state.config.deal_commission = deal_commission;
    }
    if let Some(query_auth) = query_auth {
        state.config.query_auth = query_auth;
    }
    if let Some(governance) = governance {
        state.config.governance = Some(governance);
    }
    Ok(())
}

/// Whether `sender` may manage moderators and accepted assets.
fn check_admin(state: &EscrowState, sender: &String) -> (r: Option<ContractError>)
    ensures
        r == admin_check(state@, *sender),
{
    if let Some(governance) = &state.config.governance {
        if *sender != governance.address {
            return Some(ContractError::NotGovernanceSender {});
        }
    }
    if !is_listed(&state.config.admins, sender) {
        return Some(ContractError::Unauthorized {});
    }
    None
}

/// Replaces the three accepted assets.
pub fn update_deal_token(
    state: &mut EscrowState,
    sender: &String,
    deal_token_a: Contract,
    deal_token_b: Contract,
    deal_token_c: Contract,
) -> (r: Result<(), ContractError>)
    requires
        old(state)@.wf(),
    ensures
        (r, final(state)@) == update_deal_token_model(
            old(state)@,
            *sender,
            deal_token_a,
            deal_token_b,
            deal_token_c,
        ),
        final(state)@.wf(),
        archive_extends(old(state)@, final(state)@),
{
    if let Some(e) = check_admin(state, sender) {
        return Err(e);
    }
    state.config.deal_token_a = deal_token_a;
    state.config.deal_token_b = deal_token_b;
    state.config.deal_token_c = deal_token_c;
    Ok(())
}

pub fn add_moderator(state: &mut EscrowState, sender: &String, moderator: String) -> (r: Result<
    (),
    ContractError,
>)
    requires
        old(state)@.wf(),
    ensures
        (r, final(state)@) == add_moderator_model(old(state)@, *sender, moderator),
        final(state)@.wf(),
        archive_extends(old(state)@, final(state)@),
{
    if let Some(e) = check_admin(state, sender) {
        return Err(e);
    }
    state.moderators.push(moderator);
    Ok(())
}

/// `list` without the entries equal to `who`, in their order.
fn retain_others(list: &Vec<String>, who: &String) -> (r: Vec<String>)
    ensures
        r@ == without(list@, *who),
{
    let mut out: Vec<String> = Vec::new();
    let mut i: usize = 0;
    while i < list.len()
        invariant
            i <= list.len(),
            out@ == without(list@.take(i as int), *who),
        decreases list.len() - i,
    {
        assert(list@.take(i + 1).drop_last() =~= list@.take(i as int));
        if list[i] != *who {
            out.push(list[i].clone());
        }
        i = i + 1;
    }
    assert(list@.take(list.len() as int) =~= list@);
    out
}

pub fn remove_moderator(state: &mut EscrowState, sender: &String, moderator: String) -> (r: Result<
    (),
    ContractError,
>)
    requires
        old(state)@.wf(),
    ensures
        (r, final(state)@) == remove_moderator_model(old(state)@, *sender, moderator),
        final(state)@.wf(),
        archive_extends(old(state)@, final(state)@),
{
    if let Some(e) = check_admin(state, sender) {
        return Err(e);
    }
    state.moderators = retain_others(&state.moderators, &moderator);
    Ok(())
}

} // verus!
