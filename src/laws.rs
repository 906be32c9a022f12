//! Properties of the escrow engine, proved over the transition functions of
//! [`crate::model`] that the commands are verified against.
use vstd::prelude::*;

use crate::asset::{is_terminal, ContractError, DealState, DepositAction, PostState};
use crate::model::{
    cancel_deal_model, commission_of, confirm_bank_transfer_model, dispute_deal_model,
    enter_deal_model, expired, is_party, receive_model, resolve_deal_model,
};
use crate::state::EscrowModel;

verus! {

/// One call of `enter_deal`: when and by whom it is made, on which post, for how much.
pub struct EntryCall {
    pub now: u64,
    pub sender: String,
    pub has_payment_info: bool,
    pub post_id: u128,
    pub amount: u128,
}

pub open spec fn entry_outcome(s: EscrowModel, c: EntryCall) -> (
    Result<u128, ContractError>,
    EscrowModel,
) {
    enter_deal_model(s, c.now, c.sender, c.has_payment_info, c.post_id, c.amount)
}

/// Total amount that `calls` take from post `post_id`.
pub open spec fn entered_on(calls: Seq<EntryCall>, post_id: u128) -> int
    decreases calls.len(),
{
    if calls.len() == 0 {
        0
    } else {
        entered_on(calls.drop_last(), post_id) + if calls.last().post_id == post_id {
            calls.last().amount as int
        } else {
            0
        }
    }
}

/// `states` is a run of `calls` from `states[0]` in which every call succeeds.
pub open spec fn successful_entries(states: Seq<EscrowModel>, calls: Seq<EntryCall>) -> bool {
    &&& states.len() == calls.len() + 1
    &&& forall|i: int|
        0 <= i < calls.len() ==> (#[trigger] entry_outcome(states[i], calls[i])).0 is Ok
            && states[i + 1] == entry_outcome(states[i], calls[i]).1
}

/// After any run of successful deal entries a post is still registered and
/// what remains of it is its initial amount less the amounts entered against
/// it, which therefore never exceed that initial amount.
pub proof fn lemma_post_remaining_after_entries(
    states: Seq<EscrowModel>,
    calls: Seq<EntryCall>,
    post_id: u128,
)
    requires
        successful_entries(states, calls),
        states[0].posts.contains_key(post_id),
    ensures
        states.last().posts.contains_key(post_id),
        states.last().posts[post_id].amount == states[0].posts[post_id].amount - entered_on(
            calls,
            post_id,
        ),
        entered_on(calls, post_id) <= states[0].posts[post_id].amount,
    decreases calls.len(),
{
    if calls.len() > 0 {
        let n = calls.len() - 1;
        let earlier = states.drop_last();
        assert(successful_entries(earlier, calls.drop_last())) by {
            assert forall|i: int| 0 <= i < calls.drop_last().len() implies (
            #[trigger] entry_outcome(earlier[i], calls.drop_last()[i])).0 is Ok && earlier[i + 1]
                == entry_outcome(earlier[i], calls.drop_last()[i]).1 by {
                assert(entry_outcome(states[i], calls[i]).0 is Ok);
            }
        }
        lemma_post_remaining_after_entries(earlier, calls.drop_last(), post_id);
        assert(entry_outcome(states[n], calls[n]).0 is Ok);
        assert(states[n] == earlier.last());
    }
}

/// An entry for more than what is left of an open post is refused and changes nothing.
pub proof fn lemma_entry_beyond_remaining_refused(s: EscrowModel, c: EntryCall)
    requires
        c.has_payment_info,
        s.posts.contains_key(c.post_id),
        s.posts[c.post_id].state == PostState::Open,
        c.amount >= s.posts[c.post_id].min_amount,
        c.amount > s.posts[c.post_id].amount,
    ensures
        entry_outcome(s, c) == (Err::<u128, ContractError>(ContractError::AmountMoreThanPost), s),
{
}

/// An archived deal is in one of the four final states, is no longer active,
/// and no other archive entry carries its id.
pub proof fn lemma_archived_deal_settled(s: EscrowModel, i: int)
    requires
        s.wf(),
        0 <= i < s.past_deals.len(),
    ensures
        is_terminal(s.past_deals[i].state),
        !s.deals.contains_key(s.past_deals[i].deal_id),
        forall|j: int|
            0 <= j < s.past_deals.len() && j != i ==> #[trigger] s.past_deals[j].deal_id
                != s.past_deals[i].deal_id,
{
    assert forall|j: int| 0 <= j < s.past_deals.len() && j != i implies #[trigger] s.past_deals[j].deal_id
        != s.past_deals[i].deal_id by {
        if j < i {
            assert(s.past_deals[j].deal_id != s.past_deals[i].deal_id);
        } else {
            assert(s.past_deals[i].deal_id != s.past_deals[j].deal_id);
        }
    }
}

/// Every deal command on an archived deal fails with `NoMatchingDeal` and changes nothing.
pub proof fn lemma_archived_deal_refuses_actions(
    s: EscrowModel,
    i: int,
    now: u64,
    sender: String,
    token: String,
    amount: u128,
)
    requires
        s.wf(),
        0 <= i < s.past_deals.len(),
    ensures
        ({
            let id = s.past_deals[i].deal_id;
            let refused = ContractError::NoMatchingDeal(id);
            &&& confirm_bank_transfer_model(s, now, sender, id) == (Err::<(), ContractError>(refused), s)
            &&& dispute_deal_model(s, now, sender, id) == (Err::<(), ContractError>(refused), s)
            &&& resolve_deal_model(s, now, sender, id).0 == Err::<crate::state::Transfer, ContractError>(refused)
            &&& resolve_deal_model(s, now, sender, id).1 == s
            &&& cancel_deal_model(s, now, sender, id).0 == Err::<Option<crate::state::Transfer>, ContractError>(refused)
            &&& cancel_deal_model(s, now, sender, id).1 == s
            &&& receive_model(
                s,
                now,
                token,
                sender,
                amount,
                Some(DepositAction::Customer { deal_id: id }),
            ) == (Err::<(), ContractError>(refused), s)
        }),
{
}

/// Resolving a deal pays out exactly the deal amount, split into the payout
/// and a commission of `floor(amount * bps / 10000)` credited to revenue.
pub proof fn lemma_resolve_splits_amount(s: EscrowModel, now: u64, sender: String, deal_id: u128)
    requires
        s.wf(),
        resolve_deal_model(s, now, sender, deal_id).0 is Ok,
    ensures
        ({
            let (r, next) = resolve_deal_model(s, now, sender, deal_id);
            let d = s.deals[deal_id];
            let commission = next.revenue - s.revenue;
            &&& commission == commission_of(d.amount, s.config.deal_commission)
            &&& r->Ok_0.amount + commission == d.amount
        }),
{
}

/// `sender` may cancel deal `d` once its deadline has passed.
pub open spec fn may_cancel_late(d: crate::state::Deal, sender: String) -> bool {
    match d.state {
        DealState::PendCustomerDeposit | DealState::PendCustomerBankTransfer => is_party(d, sender),
        DealState::PendDealerBankTransfer => d.customer@ == sender@,
        _ => false,
    }
}

/// A deadline-gated cancellation strictly before the deadline is refused with
/// `DealNotExpired` and changes nothing.
pub proof fn lemma_cancel_before_deadline_refused(
    s: EscrowModel,
    now: u64,
    sender: String,
    deal_id: u128,
)
    requires
        s.wf(),
        s.deals.contains_key(deal_id),
        may_cancel_late(s.deals[deal_id], sender),
        !expired(s.deals[deal_id].expiry->0, now),
    ensures
        cancel_deal_model(s, now, sender, deal_id).0 == Err::<Option<crate::state::Transfer>, ContractError>(
            ContractError::DealNotExpired(s.deals[deal_id].expiry->0),
        ),
        cancel_deal_model(s, now, sender, deal_id).1 == s,
{
}

/// The same cancellation at or after the deadline succeeds for every eligible party.
pub proof fn lemma_cancel_after_deadline_allowed(
    s: EscrowModel,
    now: u64,
    sender: String,
    deal_id: u128,
)
    requires
        s.wf(),
        s.deals.contains_key(deal_id),
        may_cancel_late(s.deals[deal_id], sender),
        expired(s.deals[deal_id].expiry->0, now),
    ensures
        cancel_deal_model(s, now, sender, deal_id).0 is Ok,
{
}

/// Before the deadline only the party that signs off may resolve: the other
/// party of the deal is refused with `DealNotExpired`, and nothing changes.
pub proof fn lemma_resolve_off_turn_before_deadline_refused(
    s: EscrowModel,
    now: u64,
    sender: String,
    deal_id: u128,
)
    requires
        s.wf(),
        s.deals.contains_key(deal_id),
        !expired(s.deals[deal_id].expiry->0, now),
        ({
            let d = s.deals[deal_id];
            ||| d.state == DealState::PendCustomerSignOff && d.dealer@ == sender@ && d.customer@
                != sender@
            ||| d.state == DealState::PendDealerSignOff && d.customer@ == sender@ && d.dealer@
                != sender@
        }),
    ensures
        resolve_deal_model(s, now, sender, deal_id).0 == Err::<crate::state::Transfer, ContractError>(
            ContractError::DealNotExpired(s.deals[deal_id].expiry->0),
        ),
        resolve_deal_model(s, now, sender, deal_id).1 == s,
{
}

/// Before the deadline a sender who is neither party of a deal awaiting
/// sign-off is refused as the wrong signer, and nothing changes.
pub proof fn lemma_resolve_outsider_before_deadline_refused(
    s: EscrowModel,
    now: u64,
    sender: String,
    deal_id: u128,
)
    requires
        s.wf(),
        s.deals.contains_key(deal_id),
        !expired(s.deals[deal_id].expiry->0, now),
        !is_party(s.deals[deal_id], sender),
        s.deals[deal_id].state == DealState::PendCustomerSignOff || s.deals[deal_id].state
            == DealState::PendDealerSignOff,
    ensures
        s.deals[deal_id].state == DealState::PendCustomerSignOff ==> resolve_deal_model(
            s,
            now,
            sender,
            deal_id,
        ).0 == Err::<crate::state::Transfer, ContractError>(ContractError::MismatchCustomer),
        s.deals[deal_id].state == DealState::PendDealerSignOff ==> resolve_deal_model(
            s,
            now,
            sender,
            deal_id,
        ).0 == Err::<crate::state::Transfer, ContractError>(ContractError::MismatchDealer),
        resolve_deal_model(s, now, sender, deal_id).0 is Err,
        resolve_deal_model(s, now, sender, deal_id).1 == s,
{
}

/// At or after the deadline either party may resolve a deal awaiting sign-off,
/// provided the commission arithmetic stays in range.
pub proof fn lemma_resolve_after_deadline_either_party(
    s: EscrowModel,
    now: u64,
    sender: String,
    deal_id: u128,
)
    requires
        s.wf(),
        s.deals.contains_key(deal_id),
        expired(s.deals[deal_id].expiry->0, now),
        is_party(s.deals[deal_id], sender),
        s.deals[deal_id].state == DealState::PendCustomerSignOff || s.deals[deal_id].state
            == DealState::PendDealerSignOff,
        s.deals[deal_id].amount * s.config.deal_commission <= u128::MAX,
        commission_of(s.deals[deal_id].amount, s.config.deal_commission)
            <= s.deals[deal_id].amount,
        s.revenue + commission_of(s.deals[deal_id].amount, s.config.deal_commission)
            <= u128::MAX,
    ensures
        resolve_deal_model(s, now, sender, deal_id).0 is Ok,
{
}

/// A deposit whose amount, asset or depositor does not match the deal or
/// post it names is refused and leaves the state exactly as it was.
pub proof fn lemma_mismatched_deposit_refused(
    s: EscrowModel,
    now: u64,
    token: String,
    from: String,
    amount: u128,
    action: DepositAction,
)
    requires
        s.wf(),
        match action {
            DepositAction::Customer { deal_id } => s.deals.contains_key(deal_id) && ({
                let d = s.deals[deal_id];
                d.amount != amount || d.customer@ != from@ || d.deal_token.address@ != token@
            }),
            DepositAction::Dealer { post_id } => s.posts.contains_key(post_id) && ({
                let p = s.posts[post_id];
                p.amount != amount || p.dealer@ != from@ || p.deal_token.address@ != token@
            }),
        },
    ensures
        receive_model(s, now, token, from, amount, Some(action)).0 is Err,
        receive_model(s, now, token, from, amount, Some(action)).1 == s,
{
}

} // verus!
