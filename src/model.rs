//! The escrow transition table as spec functions.  Each function gives the
//! result of a command and the state that follows; a refused command leaves
//! the state as it was.
use vstd::prelude::*;

use crate::asset::{
    same_contract, Contract, ContractError, DealState, DepositAction, PostState,
    COMMISSION_MULTIPLIER, DEAL_EXPIRY_TIME, DISPUTE_EXPIRY_TIME, POST_EXPIRY_TIME,
};
use crate::state::{listed, Deal, EscrowModel, Post, Transfer};

verus! {

/// Commission on a traded amount: `floor(amount * bps / 10000)`.
pub open spec fn commission_of(amount: u128, bps: u128) -> int {
    (amount * bps) / (COMMISSION_MULTIPLIER as int)
}

/// A deadline `window` seconds after `now`.
pub open spec fn deadline(now: u64, window: u128) -> u128 {
    (now + window) as u128
}

/// The deadline has been reached: actions gated on it are open to both sides.
pub open spec fn expired(expiry: u128, now: u64) -> bool {
    expiry <= now
}

/// `who` is the dealer or the customer of `d`.
pub open spec fn is_party(d: Deal, who: String) -> bool {
    d.customer@ == who@ || d.dealer@ == who@
}

/// Governance, when configured, must be the caller; then the caller must be an admin.
pub open spec fn admin_check(s: EscrowModel, sender: String) -> Option<ContractError> {
    if s.config.governance is Some && s.config.governance->0.address@ != sender@ {
        Some(ContractError::NotGovernanceSender {})
    } else if !listed(s.config.admins@, sender) {
        Some(ContractError::Unauthorized {})
    } else {
        None
    }
}

/// A deal leaves the active set for the archive; a post it drained is dropped.
pub open spec fn finish_deal(s: EscrowModel, d: Deal) -> EscrowModel {
    EscrowModel {
        past_deals: s.past_deals.push(d),
        deals: s.deals.remove(d.deal_id),
        posts: if s.posts.contains_key(d.post_id) && s.posts[d.post_id].amount == 0 {
            s.posts.remove(d.post_id)
        } else {
            s.posts
        },
        ..s
    }
}

/// The earlier archive is kept as it was, at the front of the later one.
pub open spec fn archive_extends(before: EscrowModel, after: EscrowModel) -> bool {
    &&& before.past_deals.len() <= after.past_deals.len()
    &&& forall|i: int|
        0 <= i < before.past_deals.len() ==> #[trigger] after.past_deals[i]
            == before.past_deals[i]
}

pub open spec fn update_config_model(
    s: EscrowModel,
    sender: String,
    admins: Option<Vec<String>>,
    deal_commission: Option<u128>,
    query_auth: Option<Contract>,
    governance: Option<Contract>,
) -> (Result<(), ContractError>, EscrowModel) {
    if !listed(s.config.admins@, sender) {
        (Err(ContractError::Unauthorized {}), s)
    } else {
        let c = s.config;
        let config = crate::state::Config {
            admins: match admins {
                Some(a) => a,
                None => c.admins,
            },
            deal_commission: match deal_commission {
                Some(x) => x,
                None => c.deal_commission,
            },
            query_auth: match query_auth {
                Some(q) => q,
                None => c.query_auth,
            },
            governance: match governance {
                Some(g) => Some(g),
                None => c.governance,
            },
            ..c
        };
        (Ok(()), EscrowModel { config, ..s })
    }
}

pub open spec fn update_deal_token_model(
    s: EscrowModel,
    sender: String,
    a: Contract,
    b: Contract,
    c: Contract,
) -> (Result<(), ContractError>, EscrowModel) {
    match admin_check(s, sender) {
        Some(e) => (Err(e), s),
        None => (
            Ok(()),
            EscrowModel {
                config: crate::state::Config {
                    deal_token_a: a,
                    deal_token_b: b,
                    deal_token_c: c,
                    ..s.config
                },
                ..s
            },
        ),
    }
}

pub open spec fn add_moderator_model(s: EscrowModel, sender: String, moderator: String) -> (
    Result<(), ContractError>,
    EscrowModel,
) {
    match admin_check(s, sender) {
        Some(e) => (Err(e), s),
        None => (Ok(()), EscrowModel { moderators: s.moderators.push(moderator), ..s }),
    }
}

/// `list` without every entry equal to `who`, order kept.
pub open spec fn without(list: Seq<String>, who: String) -> Seq<String>
    decreases list.len(),
{
    if list.len() == 0 {
        list
    } else {
        let rest = without(list.drop_last(), who);
        if list.last()@ == who@ {
            rest
        } else {
            rest.push(list.last())
        }
    }
}

pub open spec fn remove_moderator_model(s: EscrowModel, sender: String, moderator: String) -> (
    Result<(), ContractError>,
    EscrowModel,
) {
    match admin_check(s, sender) {
        Some(e) => (Err(e), s),
        None => (Ok(()), EscrowModel { moderators: without(s.moderators, moderator), ..s }),
    }
}

/// A deposit of `amount` of the asset whose contract is `token`, made by `from`.
pub open spec fn receive_model(
    s: EscrowModel,
    now: u64,
    token: String,
    from: String,
    amount: u128,
    action: Option<DepositAction>,
) -> (Result<(), ContractError>, EscrowModel) {
    match action {
        None => (Err(ContractError::NoActionProvided), s),
        Some(DepositAction::Customer { deal_id }) => {
            if !s.deals.contains_key(deal_id) {
                (Err(ContractError::NoMatchingDeal(deal_id)), s)
            } else {
                let d = s.deals[deal_id];
                if d.state != DealState::PendCustomerDeposit {
                    (Err(ContractError::UnexpectDealState), s)
                } else if d.amount != amount {
                    (Err(ContractError::MismatchDepositAmount(d.amount, amount)), s)
                } else if d.customer@ != from@ {
                    (Err(ContractError::MismatchCustomer), s)
                } else if token@ != d.deal_token.address@ {
                    (Err(ContractError::InvalidDealToken {}), s)
                } else {
                    let nd = Deal {
                        customer_deposit: true,
                        state: DealState::PendDealerBankTransfer,
                        expiry: Some(deadline(now, DEAL_EXPIRY_TIME)),
                        ..d
                    };
                    (Ok(()), EscrowModel { deals: s.deals.insert(deal_id, nd), ..s })
                }
            }
        },
        Some(DepositAction::Dealer { post_id }) => {
            if !s.posts.contains_key(post_id) {
                (Err(ContractError::NoMatchingPost(post_id)), s)
            } else {
                let p = s.posts[post_id];
                if p.state != PostState::PendDealerDeposit {
                    (Err(ContractError::UnexpectPostState), s)
                } else if p.amount != amount {
                    (Err(ContractError::MismatchDepositAmount(p.amount, amount)), s)
                } else if p.dealer@ != from@ {
                    (Err(ContractError::MismatchDealer), s)
                } else if token@ != p.deal_token.address@ {
                    (Err(ContractError::InvalidDealToken {}), s)
                } else {
                    let np = Post { dealer_deposit: true, state: PostState::Open, ..p };
                    (Ok(()), EscrowModel { posts: s.posts.insert(post_id, np), ..s })
                }
            }
        },
    }
}

/// `token` is one of the three accepted assets.
pub open spec fn accepted_token(s: EscrowModel, token: Contract) -> bool {
    same_contract(token, s.config.deal_token_a) || same_contract(token, s.config.deal_token_b)
        || same_contract(token, s.config.deal_token_c)
}

pub open spec fn add_post_model(
    s: EscrowModel,
    now: u64,
    sender: String,
    has_payment_info: bool,
    is_dealer_buy: bool,
    deal_token: Contract,
    amount: u128,
    min_amount: u128,
    settle_currency: String,
    settle_price: u128,
) -> (Result<u128, ContractError>, EscrowModel) {
    if !has_payment_info {
        (Err(ContractError::MissPaymentInfo {}), s)
    } else if s.max_post_id == u128::MAX {
        (Err(ContractError::Overflow), s)
    } else if !accepted_token(s, deal_token) {
        (Err(ContractError::InvalidDealToken {}), s)
    } else {
        let id = (s.max_post_id + 1) as u128;
        let p = Post {
            post_id: id,
            is_dealer_buy,
            deal_token,
            amount,
            min_amount,
            settle_currency,
            settle_price,
            dealer_deposit: false,
            dealer: sender,
            state: if is_dealer_buy {
                PostState::Open
            } else {
                PostState::PendDealerDeposit
            },
            expiry: deadline(now, POST_EXPIRY_TIME),
        };
        (Ok(id), EscrowModel { max_post_id: id, posts: s.posts.insert(id, p), ..s })
    }
}

/// The refund a cancelled post owes its dealer, if the dealer had deposited.
pub open spec fn post_refund(p: Post) -> Option<Transfer> {
    if p.dealer_deposit {
        Some(Transfer { recipient: p.dealer, amount: p.amount, token: p.deal_token })
    } else {
        None
    }
}

pub open spec fn cancel_post_model(s: EscrowModel, sender: String, post_id: u128) -> (
    Result<Option<Transfer>, ContractError>,
    EscrowModel,
) {
    if !s.posts.contains_key(post_id) {
        (Err(ContractError::NoMatchingPost(post_id)), s)
    } else {
        let p = s.posts[post_id];
        if p.dealer@ != sender@ {
            (Err(ContractError::MismatchDealer), s)
        } else {
            (Ok(post_refund(p)), EscrowModel { posts: s.posts.remove(post_id), ..s })
        }
    }
}

/// The deal a customer opens for `amount` against post `p`.
pub open spec fn new_deal(p: Post, id: u128, amount: u128, customer: String, now: u64) -> Deal {
    Deal {
        deal_id: id,
        post_id: p.post_id,
        is_dealer_buy: p.is_dealer_buy,
        deal_token: p.deal_token,
        amount,
        settle_currency: p.settle_currency,
        settle_price: p.settle_price,
        dealer_deposit: p.dealer_deposit,
        customer_deposit: false,
        dealer: p.dealer,
        customer,
        state: if p.is_dealer_buy {
            DealState::PendCustomerDeposit
        } else {
            DealState::PendCustomerBankTransfer
        },
        resolver: None,
        expiry: Some(deadline(now, DEAL_EXPIRY_TIME)),
    }
}

pub open spec fn enter_deal_model(
    s: EscrowModel,
    now: u64,
    sender: String,
    has_payment_info: bool,
    post_id: u128,
    amount: u128,
) -> (Result<u128, ContractError>, EscrowModel) {
    if !has_payment_info {
        (Err(ContractError::MissPaymentInfo {}), s)
    } else if !s.posts.contains_key(post_id) {
        (Err(ContractError::NoMatchingPost(post_id)), s)
    } else {
        let p = s.posts[post_id];
        if p.state != PostState::Open {
            (Err(ContractError::UnexpectPostState), s)
        } else if amount < p.min_amount {
            (Err(ContractError::AmountLessThanDealerReq), s)
        } else if amount > p.amount {
            (Err(ContractError::AmountMoreThanPost), s)
        } else if s.max_deal_id == u128::MAX {
            (Err(ContractError::Overflow), s)
        } else {
            let id = (s.max_deal_id + 1) as u128;
            let np = Post { amount: (p.amount - amount) as u128, ..p };
            (
                Ok(id),
                EscrowModel {
                    max_deal_id: id,
                    posts: s.posts.insert(post_id, np),
                    deals: s.deals.insert(id, new_deal(p, id, amount, sender, now)),
                    ..s
                },
            )
        }
    }
}

pub open spec fn confirm_bank_transfer_model(
    s: EscrowModel,
    now: u64,
    sender: String,
    deal_id: u128,
) -> (Result<(), ContractError>, EscrowModel) {
    if !s.deals.contains_key(deal_id) {
        (Err(ContractError::NoMatchingDeal(deal_id)), s)
    } else {
        let d = s.deals[deal_id];
        let expiry = Some(deadline(now, DEAL_EXPIRY_TIME));
        match d.state {
            DealState::PendCustomerBankTransfer => if d.customer@ != sender@ {
                (Err(ContractError::MismatchCustomer), s)
            } else {
                let nd = Deal {
                    customer_deposit: true,
                    state: DealState::PendDealerSignOff,
                    expiry,
                    ..d
                };
                (Ok(()), EscrowModel { deals: s.deals.insert(deal_id, nd), ..s })
            },
            DealState::PendDealerBankTransfer => if d.dealer@ != sender@ {
                (Err(ContractError::MismatchDealer), s)
            } else {
                let nd = Deal {
                    dealer_deposit: true,
                    state: DealState::PendCustomerSignOff,
                    expiry,
                    ..d
                };
                (Ok(()), EscrowModel { deals: s.deals.insert(deal_id, nd), ..s })
            },
            _ => (Err(ContractError::UnexpectDealState), s),
        }
    }
}

pub open spec fn dispute_deal_model(s: EscrowModel, now: u64, sender: String, deal_id: u128) -> (
    Result<(), ContractError>,
    EscrowModel,
) {
    if !s.deals.contains_key(deal_id) {
        (Err(ContractError::NoMatchingDeal(deal_id)), s)
    } else {
        let d = s.deals[deal_id];
        let nd = Deal {
            state: DealState::Dispute,
            expiry: Some(deadline(now, DISPUTE_EXPIRY_TIME)),
            ..d
        };
        let next = EscrowModel { deals: s.deals.insert(deal_id, nd), ..s };
        match d.state {
            DealState::PendCustomerSignOff => if d.customer@ != sender@ {
                (Err(ContractError::MismatchCustomer), s)
            } else {
                (Ok(()), next)
            },
            DealState::PendDealerSignOff => if d.dealer@ != sender@ {
                (Err(ContractError::MismatchDealer), s)
            } else {
                (Ok(()), next)
            },
            _ => (Err(ContractError::UnexpectDealState), s),
        }
    }
}

/// Pays out a resolved deal to `receiver`, less commission, which is credited
/// to the revenue ledger.
pub open spec fn settle(s: EscrowModel, d: Deal, sender: String, receiver: String) -> (
    Result<Transfer, ContractError>,
    EscrowModel,
) {
    let bps = s.config.deal_commission;
    let commission = commission_of(d.amount, bps);
    if d.amount * bps > u128::MAX || commission > d.amount || s.revenue + commission
        > u128::MAX {
        (Err(ContractError::Overflow), s)
    } else {
        let t = Transfer {
            recipient: receiver,
            amount: (d.amount - commission) as u128,
            token: d.deal_token,
        };
        let credited = EscrowModel { revenue: (s.revenue + commission) as u128, ..s };
        (
            Ok(t),
            finish_deal(credited, Deal { state: DealState::Resolve, resolver: Some(sender), ..d }),
        )
    }
}

pub open spec fn resolve_deal_model(s: EscrowModel, now: u64, sender: String, deal_id: u128) -> (
    Result<Transfer, ContractError>,
    EscrowModel,
) {
    if !s.deals.contains_key(deal_id) {
        (Err(ContractError::NoMatchingDeal(deal_id)), s)
    } else {
        let d = s.deals[deal_id];
        let late = expired(d.expiry->0, now);
        match d.state {
            DealState::PendCustomerSignOff => if !late && d.customer@ != sender@ {
                // the dealer has to wait for the deadline; anyone else is refused
                if d.dealer@ == sender@ {
                    (Err(ContractError::DealNotExpired(d.expiry->0)), s)
                } else {
                    (Err(ContractError::MismatchCustomer), s)
                }
            } else if late && !is_party(d, sender) {
                (Err(ContractError::Unauthorized {}), s)
            } else {
                settle(s, d, sender, d.dealer)
            },
            DealState::PendDealerSignOff => if !late && d.dealer@ != sender@ {
                // the customer has to wait for the deadline; anyone else is refused
                if d.customer@ == sender@ {
                    (Err(ContractError::DealNotExpired(d.expiry->0)), s)
                } else {
                    (Err(ContractError::MismatchDealer), s)
                }
            } else if late && !is_party(d, sender) {
                (Err(ContractError::Unauthorized {}), s)
            } else {
                settle(s, d, sender, d.customer)
            },
            DealState::Dispute => if !listed(s.moderators, sender) {
                (Err(ContractError::Unauthorized {}), s)
            } else {
                settle(s, d, sender, if d.is_dealer_buy { d.dealer } else { d.customer })
            },
            _ => (Err(ContractError::UnexpectDealState), s),
        }
    }
}

/// The full deal amount returned to `recipient` and the deal archived as `outcome`.
pub open spec fn refund(s: EscrowModel, d: Deal, recipient: String, outcome: Deal) -> (
    Result<Option<Transfer>, ContractError>,
    EscrowModel,
) {
    (
        Ok(Some(Transfer { recipient, amount: d.amount, token: d.deal_token })),
        finish_deal(s, outcome),
    )
}

pub open spec fn cancel_deal_model(s: EscrowModel, now: u64, sender: String, deal_id: u128) -> (
    Result<Option<Transfer>, ContractError>,
    EscrowModel,
) {
    if !s.deals.contains_key(deal_id) {
        (Err(ContractError::NoMatchingDeal(deal_id)), s)
    } else {
        let d = s.deals[deal_id];
        let expiry = d.expiry->0;
        let customer_missed = Deal { state: DealState::CancelAsCustomerMissTransfer, ..d };
        match d.state {
            DealState::PendCustomerDeposit => if !is_party(d, sender) {
                (Err(ContractError::Unauthorized {}), s)
            } else if !expired(expiry, now) {
                (Err(ContractError::DealNotExpired(expiry)), s)
            } else {
                (Ok(None), finish_deal(s, customer_missed))
            },
            DealState::PendCustomerBankTransfer => if !is_party(d, sender) {
                (Err(ContractError::Unauthorized {}), s)
            } else if !expired(expiry, now) {
                (Err(ContractError::DealNotExpired(expiry)), s)
            } else {
                refund(s, d, d.dealer, customer_missed)
            },
            DealState::PendDealerBankTransfer => if d.customer@ != sender@ {
                (Err(ContractError::Unauthorized {}), s)
            } else if !expired(expiry, now) {
                (Err(ContractError::DealNotExpired(expiry)), s)
            } else {
                refund(s, d, d.customer, Deal { state: DealState::CancelAsDealerMissTransfer, ..d })
            },
            DealState::Dispute => if !listed(s.moderators, sender) {
                (Err(ContractError::Unauthorized {}), s)
            } else {
                refund(
                    s,
                    d,
                    if d.is_dealer_buy { d.customer } else { d.dealer },
                    Deal { state: DealState::CancelAsDispute, resolver: Some(sender), ..d },
                )
            },
            _ => (Err(ContractError::UnexpectDealState), s),
        }
    }
}

pub open spec fn emergency_withdraw_model(s: EscrowModel, sender: String, deal_id: u128) -> (
    Result<Transfer, ContractError>,
    EscrowModel,
) {
    if !listed(s.config.admins@, sender) {
        (Err(ContractError::Unauthorized {}), s)
    } else if !s.deals.contains_key(deal_id) {
        (Err(ContractError::NoMatchingDeal(deal_id)), s)
    } else {
        let d = s.deals[deal_id];
        if (d.is_dealer_buy && !d.customer_deposit) || (!d.is_dealer_buy && !d.dealer_deposit) {
            (Err(ContractError::NoAmountToWithdraw), s)
        } else {
            (
                Ok(Transfer { recipient: sender, amount: d.amount, token: d.deal_token }),
                EscrowModel { deals: s.deals.remove(deal_id), ..s },
            )
        }
    }
}

pub open spec fn admin_delete_deal_model(s: EscrowModel, sender: String, deal_id: u128) -> (
    Result<(), ContractError>,
    EscrowModel,
) {
    if !listed(s.config.admins@, sender) {
        (Err(ContractError::Unauthorized {}), s)
    } else if !s.deals.contains_key(deal_id) {
        (Err(ContractError::NoMatchingDeal(deal_id)), s)
    } else {
        (Ok(()), EscrowModel { deals: s.deals.remove(deal_id), ..s })
    }
}

pub open spec fn get_commission_model(s: EscrowModel, sender: String) -> (
    Result<Transfer, ContractError>,
    EscrowModel,
) {
    if !listed(s.config.admins@, sender) {
        (Err(ContractError::Unauthorized {}), s)
    } else {
        (
            Ok(Transfer { recipient: sender, amount: s.revenue, token: s.config.deal_token_a }),
            EscrowModel { revenue: 0, ..s },
        )
    }
}

} // verus!
