//! Helpers of the query side: message padding, the per-user views of the
//! registries, and who may see a deal's payment details.
use vstd::prelude::*;

use crate::state::{is_listed, listed, Deal, Post};

verus! {

/// Block size that outgoing messages are padded to.
pub const RESPONSE_BLOCK_SIZE: usize = 256;

/// Spaces needed to bring a length of `len` up to a multiple of `block_size`.
pub open spec fn pad_needed(len: nat, block_size: nat) -> nat {
    if len % block_size == 0 {
        0
    } else {
        (block_size - len % block_size) as nat
    }
}

/// Pads `message` with spaces to a multiple of `block_size`.
pub fn space_pad(message: &mut Vec<u8>, block_size: usize) -> (r: &mut Vec<u8>)
    requires
        block_size > 0,
        old(message).len() + block_size <= usize::MAX,
    ensures
        (*r)@ == old(message)@ + Seq::new(
            pad_needed(old(message).len() as nat, block_size as nat),
            |i: int| 32u8,
        ),
        *final(message) == *final(r),
{
    let len = message.len();
    let surplus = len % block_size;
    if surplus == 0 {
        assert(message@ =~= message@ + Seq::new(0, |i: int| 32u8));
        return message;
    }
    let missing = block_size - surplus;
    let ghost start = message@;
    let mut k: usize = 0;
    while k < missing
        invariant
            k <= missing,
            missing == block_size - surplus,
            message@ == start + Seq::new(k as nat, |i: int| 32u8),
        decreases missing - k,
    {
        message.push(32u8);
        k = k + 1;
        assert(message@ =~= start + Seq::new(k as nat, |i: int| 32u8));
    }
    message
}

/// The posts of `list` whose dealer is `user`, in order.
pub open spec fn posts_by(list: Seq<Post>, user: String) -> Seq<Post>
    decreases list.len(),
{
    if list.len() == 0 {
        Seq::empty()
    } else {
        let rest = posts_by(list.drop_last(), user);
        if list.last().dealer@ == user@ {
            rest.push(list.last())
        } else {
            rest
        }
    }
}

/// The deals of `list` in which `user` is customer or dealer, in order.
pub open spec fn deals_with(list: Seq<Deal>, user: String) -> Seq<Deal>
    decreases list.len(),
{
    if list.len() == 0 {
        Seq::empty()
    } else {
        let rest = deals_with(list.drop_last(), user);
        let d = list.last();
        if d.customer@ == user@ || d.dealer@ == user@ {
            rest.push(d)
        } else {
            rest
        }
    }
}

/// The active posts that `user` published.
pub fn my_posts(posts: &Vec<Post>, user: &String) -> (r: Vec<Post>)
    ensures
        r@ == posts_by(posts@, *user),
{
    let mut out: Vec<Post> = Vec::new();
    let mut i: usize = 0;
    while i < posts.len()
        invariant
            i <= posts.len(),
            out@ == posts_by(posts@.take(i as int), *user),
        decreases posts.len() - i,
    {
        assert(posts@.take(i + 1).drop_last() =~= posts@.take(i as int));
        if posts[i].dealer == *user {
            out.push(posts[i].copy());
        }
        i = i + 1;
    }
    assert(posts@.take(posts.len() as int) =~= posts@);
    out
}

/// The active deals in which `user` takes part.
pub fn my_deals(deals: &Vec<Deal>, user: &String) -> (r: Vec<Deal>)
    ensures
        r@ == deals_with(deals@, *user),
{
    let mut out: Vec<Deal> = Vec::new();
    let mut i: usize = 0;
    while i < deals.len()
        invariant
            i <= deals.len(),
            out@ == deals_with(deals@.take(i as int), *user),
        decreases deals.len() - i,
    {
        assert(deals@.take(i + 1).drop_last() =~= deals@.take(i as int));
        if deals[i].customer == *user || deals[i].dealer == *user {
            out.push(deals[i].copy());
        }
        i = i + 1;
    }
    assert(deals@.take(deals.len() as int) =~= deals@);
    out
}

/// Whose payment details `user` may see for deal `d`: only admins, moderators
/// and the two parties may look, and they see the details of the party that
/// receives the fiat payment (the customer when the dealer buys, otherwise
/// the dealer).
pub open spec fn detail_contact(
    d: Deal,
    user: String,
    admins: Seq<String>,
    moderators: Seq<String>,
) -> Option<String> {
    if listed(admins, user) || listed(moderators, user) || d.customer@ == user@ || d.dealer@
        == user@ {
        Some(
            if d.is_dealer_buy {
                d.customer
            } else {
                d.dealer
            },
        )
    } else {
        None
    }
}

pub fn deal_detail_contact(
    d: &Deal,
    user: &String,
    admins: &Vec<String>,
    moderators: &Vec<String>,
) -> (r: Option<String>)
    ensures
        r == detail_contact(*d, *user, admins@, moderators@),
{
    let permit = is_listed(admins, user) || is_listed(moderators, user) || d.customer == *user
        || d.dealer == *user;
    if !permit {
        return None;
    }
    if d.is_dealer_buy {
        Some(d.customer.clone())
    } else {
        Some(d.dealer.clone())
    }
}

} // verus!
