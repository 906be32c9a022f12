use vstd::prelude::*;

verus! {

/// Seconds a party has to act once a deal hands it the obligation.
pub const DEAL_EXPIRY_TIME: u128 = 21600;

/// Seconds a dispute stays open before its recorded deadline.
pub const DISPUTE_EXPIRY_TIME: u128 = 864000;

/// Seconds after creation at which a post is recorded as stale.
pub const POST_EXPIRY_TIME: u128 = 432000;

/// Commission rates are given in basis points of this denominator.
pub const COMMISSION_MULTIPLIER: u128 = 10000;

/// A contract reference as supplied by a caller, before its address is checked.
#[derive(Debug)]
pub struct RawContract {
    pub address: String,
    pub code_hash: String,
}

impl RawContract {
    pub fn new(address: &String, code_hash: &String) -> (r: RawContract)
        ensures
            r.address == *address,
            r.code_hash == *code_hash,
    {
        RawContract { address: address.clone(), code_hash: code_hash.clone() }
    }
}

/// A contract reference whose address has been validated by the host.
#[derive(Debug)]
pub struct Contract {
    pub address: String,
    pub code_hash: String,
}

/// Two contract references name the same contract.
pub open spec fn same_contract(a: Contract, b: Contract) -> bool {
    a.address@ == b.address@ && a.code_hash@ == b.code_hash@
}

impl Contract {
    pub fn new(address: &String, code_hash: &String) -> (r: Contract)
        ensures
            r.address == *address,
            r.code_hash == *code_hash,
    {
        Contract { address: address.clone(), code_hash: code_hash.clone() }
    }

    /// A field-wise copy, equal to `self`.
    pub fn copy(&self) -> (r: Contract)
        ensures
            r == *self,
    {
        Contract { address: self.address.clone(), code_hash: self.code_hash.clone() }
    }

    pub fn same_as(&self, other: &Contract) -> (r: bool)
        ensures
            r == same_contract(*self, *other),
    {
        self.address == other.address && self.code_hash == other.code_hash
    }
}

impl Default for Contract {
    /// A reference to no contract: empty address and code hash.
    fn default() -> (r: Contract)
        ensures
            r.address@ == Seq::<char>::empty(),
            r.code_hash@ == Seq::<char>::empty(),
    {
        Contract { address: String::new(), code_hash: String::new() }
    }
}

impl From<Contract> for RawContract {
    fn from(item: Contract) -> (r: RawContract) {
        RawContract { address: item.address, code_hash: item.code_hash }
    }
}

impl vstd::std_specs::convert::FromSpecImpl<Contract> for RawContract {
    open spec fn obeys_from_spec() -> bool {
        true
    }

    open spec fn from_spec(item: Contract) -> RawContract {
        RawContract { address: item.address, code_hash: item.code_hash }
    }
}

/// Lifecycle of a post.
#[derive(Debug, Clone, Copy, PartialEq, Eq, Structural)]
pub enum PostState {
    Open,
    PendDealerDeposit,
}

/// Lifecycle of a deal; the last four variants are terminal.
#[derive(Debug, Clone, Copy, PartialEq, Eq, Structural)]
pub enum DealState {
    PendDealerBankTransfer,
    PendDealerSignOff,
    PendCustomerDeposit,
    PendCustomerBankTransfer,
    PendCustomerSignOff,
    Dispute,
    Resolve,
    CancelAsDealerMissTransfer,
    CancelAsCustomerMissTransfer,
    CancelAsDispute,
}

/// A deal that has reached one of its four final outcomes.
pub open spec fn is_terminal(s: DealState) -> bool {
    match s {
        DealState::Resolve
        | DealState::CancelAsDealerMissTransfer
        | DealState::CancelAsCustomerMissTransfer
        | DealState::CancelAsDispute => true,
        _ => false,
    }
}

/// What an incoming asset deposit is meant for.
#[derive(Debug, Clone, Copy, PartialEq, Eq, Structural)]
pub enum DepositAction {
    /// The dealer funds a post that sells the asset.
    Dealer { post_id: u128 },
    /// The customer funds a deal in which the dealer buys the asset.
    Customer { deal_id: u128 },
}

/// Why a command was refused.  A refused command changes nothing.
#[derive(Debug, Clone, Copy, PartialEq, Eq, Structural)]
pub enum ContractError {
    Unauthorized {},
    NotGovernanceSender {},
    MissPaymentInfo {},
    InvalidDealToken {},
    NoMatchingDeal(u128),
    NoMatchingPost(u128),
    UnexpectDealState,
    UnexpectPostState,
    MismatchDepositAmount(u128, u128),
    MismatchCustomer,
    MismatchDealer,
    DealNotExpired(u128),
    AmountLessThanDealerReq,
    AmountMoreThanPost,
    /// A deposit notification arrived without saying what it is for.
    NoActionProvided,
    /// An administrative withdrawal found no custody to take.
    NoAmountToWithdraw,
    /// A counter or an amount would leave the range of `u128`.
    Overflow,
}

} // verus!
