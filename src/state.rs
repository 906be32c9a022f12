use std::collections::BTreeMap;

use vstd::prelude::*;

use crate::asset::{is_terminal, Contract, DealState, PostState};


verus! {

/// Settings of the marketplace, changed only by administrators.
#[derive(Debug)]
pub struct Config {
    pub admins: Vec<String>,
    /// Commission in basis points of the traded amount.
    pub deal_commission: u128,
    pub deal_token_a: Contract,
    pub deal_token_b: Contract,
    pub deal_token_c: Contract,
    pub query_auth: Contract,
    pub governance: Option<Contract>,
}

/// A standing offer by a dealer to trade an asset against fiat.
#[derive(Debug)]
pub struct Post {
    pub post_id: u128,
    /// The dealer buys the asset (otherwise the dealer sells it).
    pub is_dealer_buy: bool,
    pub deal_token: Contract,
    /// What is left to trade; decreases as deals are entered.
    pub amount: u128,
    /// Smallest amount a single deal may take.
    pub min_amount: u128,
    pub settle_currency: String,
    pub settle_price: u128,
    pub dealer_deposit: bool,
    pub dealer: String,
    pub state: PostState,
    pub expiry: u128,
}

/// One trade opened by a customer against a post.
#[derive(Debug)]
pub struct Deal {
    pub deal_id: u128,
    pub post_id: u128,
    pub is_dealer_buy: bool,
    pub deal_token: Contract,
    pub amount: u128,
    pub settle_currency: String,
    pub settle_price: u128,
    pub dealer_deposit: bool,
    pub customer_deposit: bool,
    pub dealer: String,
    pub customer: String,
    pub state: DealState,
    pub resolver: Option<String>,
    pub expiry: Option<u128>,
}

/// How a user wants to be paid in fiat.
#[derive(Debug)]
pub struct PaymentInfo {
    pub method: String,
    pub detail: String,
}

/// An instruction to move `amount` of the asset `token` to `recipient`.
#[derive(Debug)]
pub struct Transfer {
    pub recipient: String,
    pub amount: u128,
    pub token: Contract,
}

/// Everything the escrow engine keeps between commands.
pub struct EscrowState {
    pub config: Config,
    /// Largest deal id handed out so far.
    pub max_deal_id: u128,
    /// Largest post id handed out so far.
    pub max_post_id: u128,
    /// Commission accrued and not yet swept.
    pub revenue: u128,
    /// Deals that reached a final outcome, in the order they did.
    pub past_deals: Vec<Deal>,
    pub active_posts: BTreeMap<u128, Post>,
    pub active_deals: BTreeMap<u128, Deal>,
    pub moderators: Vec<String>,
}

/// The abstract value of an [`EscrowState`].
pub struct EscrowModel {
    pub config: Config,
    pub max_deal_id: u128,
    pub max_post_id: u128,
    pub revenue: u128,
    pub past_deals: Seq<Deal>,
    pub posts: Map<u128, Post>,
    pub deals: Map<u128, Deal>,
    pub moderators: Seq<String>,
}

impl View for EscrowState {
    type V = EscrowModel;

    open spec fn view(&self) -> EscrowModel {
        EscrowModel {
            config: self.config,
            max_deal_id: self.max_deal_id,
            max_post_id: self.max_post_id,
            revenue: self.revenue,
            past_deals: self.past_deals@,
            posts: self.active_posts@,
            deals: self.active_deals@,
            moderators: self.moderators@,
        }
    }
}

impl EscrowModel {
    /// Each registry entry is stored under its own id, ids come from the
    /// counters, active deals are in progress and on a deadline, and the
    /// archive holds finished deals, each once, none of them still active.
    pub open spec fn wf(self) -> bool {
        &&& forall|id: u128| #[trigger]
            self.posts.contains_key(id) ==> self.posts[id].post_id == id && id <= self.max_post_id
        &&& forall|id: u128| #[trigger]
            self.deals.contains_key(id) ==> {
                let d = self.deals[id];
                &&& d.deal_id == id
                &&& id <= self.max_deal_id
                &&& !is_terminal(d.state)
                &&& d.expiry is Some
            }
        &&& forall|i: int|
            0 <= i < self.past_deals.len() ==> {
                let d = #[trigger] self.past_deals[i];
                &&& is_terminal(d.state)
                &&& d.deal_id <= self.max_deal_id
                &&& !self.deals.contains_key(d.deal_id)
            }
        &&& forall|i: int, j: int|
            0 <= i < j < self.past_deals.len() ==> #[trigger] self.past_deals[i].deal_id
                != #[trigger] self.past_deals[j].deal_id
    }
}

impl Post {
    /// A field-wise copy, equal to `self`.
    pub fn copy(&self) -> (r: Post)
        ensures
            r == *self,
    {
        Post {
            post_id: self.post_id,
            is_dealer_buy: self.is_dealer_buy,
            deal_token: self.deal_token.copy(),
            amount: self.amount,
            min_amount: self.min_amount,
            settle_currency: self.settle_currency.clone(),
            settle_price: self.settle_price,
            dealer_deposit: self.dealer_deposit,
            dealer: self.dealer.clone(),
            state: self.state,
            expiry: self.expiry,
        }
    }
}

impl Deal {
    /// A field-wise copy, equal to `self`.
    pub fn copy(&self) -> (r: Deal)
        ensures
            r == *self,
    {
        Deal {
            deal_id: self.deal_id,
            post_id: self.post_id,
            is_dealer_buy: self.is_dealer_buy,
            deal_token: self.deal_token.copy(),
            amount: self.amount,
            settle_currency: self.settle_currency.clone(),
            settle_price: self.settle_price,
            dealer_deposit: self.dealer_deposit,
            customer_deposit: self.customer_deposit,
            dealer: self.dealer.clone(),
            customer: self.customer.clone(),
            state: self.state,
            resolver: match &self.resolver {
                Some(r) => Some(r.clone()),
                None => None,
            },
            expiry: self.expiry,
        }
    }
}

/// Stored registries that can be rebuilt into a well-formed state: ids are
/// unique within each list and within the counters, active deals are in
/// progress and on a deadline, archived deals are final and no longer active.
pub open spec fn parts_ok(
    max_deal_id: u128,
    max_post_id: u128,
    past: Seq<Deal>,
    posts: Seq<Post>,
    deals: Seq<Deal>,
) -> bool {
    &&& forall|a: int, b: int|
        0 <= a < b < posts.len() ==> #[trigger] posts[a].post_id != #[trigger] posts[b].post_id
    &&& forall|a: int, b: int|
        0 <= a < b < deals.len() ==> #[trigger] deals[a].deal_id != #[trigger] deals[b].deal_id
    &&& forall|a: int, b: int|
        0 <= a < b < past.len() ==> #[trigger] past[a].deal_id != #[trigger] past[b].deal_id
    &&& forall|k: int| 0 <= k < posts.len() ==> (#[trigger] posts[k]).post_id <= max_post_id
    &&& forall|k: int|
        0 <= k < deals.len() ==> {
            let d = #[trigger] deals[k];
            d.deal_id <= max_deal_id && !is_terminal(d.state) && d.expiry is Some
        }
    &&& forall|k: int|
        0 <= k < past.len() ==> {
            let d = #[trigger] past[k];
            &&& is_terminal(d.state)
            &&& d.deal_id <= max_deal_id
            &&& forall|m: int| 0 <= m < deals.len() ==> #[trigger] deals[m].deal_id != d.deal_id
        }
}

/// `m` holds exactly the posts of `list`, each under its id.
pub open spec fn holds_posts(m: Map<u128, Post>, list: Seq<Post>) -> bool {
    &&& forall|id: u128|
        #[trigger] m.contains_key(id) <==> exists|k: int| 0 <= k < list.len() && list[k].post_id == id
    &&& forall|k: int| 0 <= k < list.len() ==> m[(#[trigger] list[k]).post_id] == list[k]
}

/// `m` holds exactly the deals of `list`, each under its id.
pub open spec fn holds_deals(m: Map<u128, Deal>, list: Seq<Deal>) -> bool {
    &&& forall|id: u128|
        #[trigger] m.contains_key(id) <==> exists|k: int| 0 <= k < list.len() && list[k].deal_id == id
    &&& forall|k: int| 0 <= k < list.len() ==> m[(#[trigger] list[k]).deal_id] == list[k]
}

impl EscrowState {
    /// A fresh marketplace: no posts or deals, counters and revenue at zero,
    /// the admins also serving as the first moderators, no governance, and
    /// `deal_token` as each of the three accepted assets.
    pub fn new(admins: Vec<String>, deal_commission: u128, deal_token: Contract, query_auth: Contract) -> (r:
        EscrowState)
        ensures
            r@.wf(),
            r.config.admins == admins,
            r.config.deal_commission == deal_commission,
            r.config.deal_token_a == deal_token,
            r.config.deal_token_b == deal_token,
            r.config.deal_token_c == deal_token,
            r.config.query_auth == query_auth,
            r.config.governance is None,
            r.max_deal_id == 0,
            r.max_post_id == 0,
            r.revenue == 0,
            r@.past_deals.len() == 0,
            r@.posts == Map::<u128, Post>::empty(),
            r@.deals == Map::<u128, Deal>::empty(),
            r@.moderators == admins@,
    {
        let moderators = copy_strings(&admins);
        EscrowState {
            config: Config {
                admins,
                deal_commission,
                deal_token_a: deal_token.copy(),
                deal_token_b: deal_token.copy(),
                deal_token_c: deal_token,
                query_auth,
                governance: None,
            },
            max_deal_id: 0,
            max_post_id: 0,
            revenue: 0,
            past_deals: Vec::new(),
            active_posts: BTreeMap::new(),
            active_deals: BTreeMap::new(),
            moderators,
        }
    }

    /// Rebuilds a state from its stored parts, or `None` where they break
    /// the registry invariant (see [`parts_ok`]).
    pub fn from_parts(
        config: Config,
        max_deal_id: u128,
        max_post_id: u128,
        revenue: u128,
        past_deals: Vec<Deal>,
        posts: Vec<Post>,
        deals: Vec<Deal>,
        moderators: Vec<String>,
    ) -> (r: Option<EscrowState>)
        ensures
            r is Some <==> parts_ok(max_deal_id, max_post_id, past_deals@, posts@, deals@),
            r matches Some(st) ==> {
                &&& st@.wf()
                &&& st.config == config
                &&& st.max_deal_id == max_deal_id
                &&& st.max_post_id == max_post_id
                &&& st.revenue == revenue
                &&& st@.past_deals == past_deals@
                &&& holds_posts(st@.posts, posts@)
                &&& holds_deals(st@.deals, deals@)
                &&& st@.moderators == moderators@
            },
    {
        let mut active_posts: BTreeMap<u128, Post> = BTreeMap::new();
        let mut i: usize = 0;
        while i < posts.len()
            invariant
                i <= posts.len(),
                forall|a: int, b: int|
                    0 <= a < b < i ==> #[trigger] posts@[a].post_id != #[trigger] posts@[b].post_id,
                forall|k: int| 0 <= k < i ==> (#[trigger] posts@[k]).post_id <= max_post_id,
                holds_posts(active_posts@, posts@.take(i as int)),
            decreases posts.len() - i,
        {
            let id = posts[i].post_id;
            if id > max_post_id {
                return None;
            }
            if active_posts.contains_key(&id) {
                proof {
                    let prev = posts@.take(i as int);
                    let k = choose|k: int| 0 <= k < prev.len() && prev[k].post_id == id;
                    assert(posts@[k].post_id == posts@[i as int].post_id);
                }
                return None;
            }
            let ghost before = active_posts@;
            active_posts.insert(id, posts[i].copy());
            i = i + 1;
            proof {
                let t = posts@.take(i as int);
                assert forall|a: int| 0 <= a < i - 1 implies #[trigger] posts@[a].post_id != id by {
                    let prev = posts@.take(i - 1);
                    assert(prev[a].post_id == posts@[a].post_id);
                    assert(before.contains_key(posts@[a].post_id));
                }
                assert forall|x: u128| #[trigger] active_posts@.contains_key(x) implies exists|k: int|
                    0 <= k < t.len() && t[k].post_id == x by {
                    if x == id {
                        assert(t[i - 1].post_id == x);
                    } else {
                        let prev = posts@.take(i - 1);
                        let k = choose|k: int| 0 <= k < prev.len() && prev[k].post_id == x;
                        assert(t[k].post_id == x);
                    }
                }
                assert forall|k: int| 0 <= k < t.len() implies active_posts@[(#[trigger] t[k]).post_id]
                    == t[k] by {
                    if k < i - 1 {
                        assert(posts@.take(i - 1)[k] == t[k]);
                    }
                }
            }
        }
        assert(posts@.take(posts.len() as int) =~= posts@);
        let mut active_deals: BTreeMap<u128, Deal> = BTreeMap::new();
        let mut i: usize = 0;
        while i < deals.len()
            invariant
                i <= deals.len(),
                forall|a: int, b: int|
                    0 <= a < b < i ==> #[trigger] deals@[a].deal_id != #[trigger] deals@[b].deal_id,
                forall|k: int|
                    0 <= k < i ==> {
                        let d = #[trigger] deals@[k];
                        d.deal_id <= max_deal_id && !is_terminal(d.state) && d.expiry is Some
                    },
                holds_deals(active_deals@, deals@.take(i as int)),
            decreases deals.len() - i,
        {
            let d = &deals[i];
            let id = d.deal_id;
            let settled = match d.state {
                DealState::Resolve
                | DealState::CancelAsDealerMissTransfer
                | DealState::CancelAsCustomerMissTransfer
                | DealState::CancelAsDispute => true,
                _ => false,
            };
            if id > max_deal_id || settled || d.expiry.is_none() {
                return None;
            }
            if active_deals.contains_key(&id) {
                proof {
                    let prev = deals@.take(i as int);
                    let k = choose|k: int| 0 <= k < prev.len() && prev[k].deal_id == id;
                    assert(deals@[k].deal_id == deals@[i as int].deal_id);
                }
                return None;
            }
            let ghost before = active_deals@;
            active_deals.insert(id, d.copy());
            i = i + 1;
            proof {
                let t = deals@.take(i as int);
                assert forall|a: int| 0 <= a < i - 1 implies #[trigger] deals@[a].deal_id != id by {
                    let prev = deals@.take(i - 1);
                    assert(prev[a].deal_id == deals@[a].deal_id);
                    assert(before.contains_key(deals@[a].deal_id));
                }
                assert forall|x: u128| #[trigger] active_deals@.contains_key(x) implies exists|k: int|
                    0 <= k < t.len() && t[k].deal_id == x by {
                    if x == id {
                        assert(t[i - 1].deal_id == x);
                    } else {
                        let prev = deals@.take(i - 1);
                        let k = choose|k: int| 0 <= k < prev.len() && prev[k].deal_id == x;
                        assert(t[k].deal_id == x);
                    }
                }
                assert forall|k: int| 0 <= k < t.len() implies active_deals@[(#[trigger] t[k]).deal_id]
                    == t[k] by {
                    if k < i - 1 {
                        assert(deals@.take(i - 1)[k] == t[k]);
                    }
                }
            }
        }
        assert(deals@.take(deals.len() as int) =~= deals@);
        let mut archived: BTreeMap<u128, Deal> = BTreeMap::new();
        let mut i: usize = 0;
        while i < past_deals.len()
            invariant
                i <= past_deals.len(),
                holds_deals(active_deals@, deals@),
                forall|a: int, b: int|
                    0 <= a < b < i ==> #[trigger] past_deals@[a].deal_id
                        != #[trigger] past_deals@[b].deal_id,
                forall|k: int|
                    0 <= k < i ==> {
                        let d = #[trigger] past_deals@[k];
                        &&& is_terminal(d.state)
                        &&& d.deal_id <= max_deal_id
                        &&& !active_deals@.contains_key(d.deal_id)
                    },
                holds_deals(archived@, past_deals@.take(i as int)),
            decreases past_deals.len() - i,
        {
            let d = &past_deals[i];
            let id = d.deal_id;
            let settled = match d.state {
                DealState::Resolve
                | DealState::CancelAsDealerMissTransfer
                | DealState::CancelAsCustomerMissTransfer
                | DealState::CancelAsDispute => true,
                _ => false,
            };
            if id > max_deal_id || !settled {
                return None;
            }
            if active_deals.contains_key(&id) {
                proof {
                    let m = choose|m: int| 0 <= m < deals@.len() && deals@[m].deal_id == id;
                    assert(deals@[m].deal_id == past_deals@[i as int].deal_id);
                }
                return None;
            }
            if archived.contains_key(&id) {
                proof {
                    let prev = past_deals@.take(i as int);
                    let k = choose|k: int| 0 <= k < prev.len() && prev[k].deal_id == id;
                    assert(past_deals@[k].deal_id == past_deals@[i as int].deal_id);
                }
                return None;
            }
            let ghost before = archived@;
            archived.insert(id, d.copy());
            i = i + 1;
            proof {
                let t = past_deals@.take(i as int);
                assert forall|a: int| 0 <= a < i - 1 implies #[trigger] past_deals@[a].deal_id != id by {
                    let prev = past_deals@.take(i - 1);
                    assert(prev[a].deal_id == past_deals@[a].deal_id);
                    assert(before.contains_key(past_deals@[a].deal_id));
                }
                assert forall|x: u128| #[trigger] archived@.contains_key(x) implies exists|k: int|
                    0 <= k < t.len() && t[k].deal_id == x by {
                    if x == id {
                        assert(t[i - 1].deal_id == x);
                    } else {
                        let prev = past_deals@.take(i - 1);
                        let k = choose|k: int| 0 <= k < prev.len() && prev[k].deal_id == x;
                        assert(t[k].deal_id == x);
                    }
                }
                assert forall|k: int| 0 <= k < t.len() implies archived@[(#[trigger] t[k]).deal_id]
                    == t[k] by {
                    if k < i - 1 {
                        assert(past_deals@.take(i - 1)[k] == t[k]);
                    }
                }
            }
        }
        let st = EscrowState {
            config,
            max_deal_id,
            max_post_id,
            revenue,
            past_deals,
            active_posts,
            active_deals,
            moderators,
        };
        proof {
            let m = st@;
            assert forall|id: u128| #[trigger] m.posts.contains_key(id) implies m.posts[id].post_id
                == id && id <= m.max_post_id by {
                let k = choose|k: int| 0 <= k < posts@.len() && posts@[k].post_id == id;
                assert(m.posts[posts@[k].post_id] == posts@[k]);
            }
            assert forall|id: u128| #[trigger] m.deals.contains_key(id) implies ({
                let d = m.deals[id];
                &&& d.deal_id == id
                &&& id <= m.max_deal_id
                &&& !is_terminal(d.state)
                &&& d.expiry is Some
            }) by {
                let k = choose|k: int| 0 <= k < deals@.len() && deals@[k].deal_id == id;
                assert(m.deals[deals@[k].deal_id] == deals@[k]);
            }
            assert forall|k: int| 0 <= k < past_deals@.len() implies {
                let d = #[trigger] past_deals@[k];
                &&& is_terminal(d.state)
                &&& d.deal_id <= max_deal_id
                &&& forall|m: int| 0 <= m < deals@.len() ==> #[trigger] deals@[m].deal_id != d.deal_id
            } by {
                let d = past_deals@[k];
                assert forall|j: int| 0 <= j < deals@.len() implies #[trigger] deals@[j].deal_id
                    != d.deal_id by {
                    assert(m.deals.contains_key(deals@[j].deal_id));
                }
            }
        }
        Some(st)
    }
}

/// `who` appears in `list`.
pub open spec fn listed(list: Seq<String>, who: String) -> bool {
    exists|i: int| 0 <= i < list.len() && (#[trigger] list[i])@ == who@
}

/// Whether `who` appears in `list`.
pub fn is_listed(list: &Vec<String>, who: &String) -> (r: bool)
    ensures
        r == listed(list@, *who),
{
    let mut i: usize = 0;
    while i < list.len()
        invariant
            i <= list.len(),
            forall|k: int| 0 <= k < i ==> (#[trigger] list@[k])@ != who@,
        decreases list.len() - i,
    {
        if list[i] == *who {
            return true;
        }
        i = i + 1;
    }
    false
}

/// A copy of a list of identities, equal to `list`.
pub fn copy_strings(list: &Vec<String>) -> (r: Vec<String>)
    ensures
        r@ == list@,
{
    let mut out: Vec<String> = Vec::new();
    let mut i: usize = 0;
    while i < list.len()
        invariant
            i <= list.len(),
            out@ == list@.take(i as int),
        decreases list.len() - i,
    {
        out.push(list[i].clone());
        i = i + 1;
        assert(out@ =~= list@.take(i as int));
    }
    assert(list@.take(list.len() as int) =~= list@);
    out
}

} // verus!
