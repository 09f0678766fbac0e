use vstd::prelude::*;

verus! {

/// An account: the identity of a validator, a voter or a candidate.
pub type AccountId = u64;

/// The index of a session, as the session scheduler counts them.
pub type SessionIndex = u32;

/// Who issued a call, as the authentication layer reports it.
#[derive(Clone, Copy, Debug, PartialEq, Eq, Structural)]
pub enum Origin {
    /// A call signed by an account.
    Signed(AccountId),
    /// A call with administrative privilege; it carries no account.
    Root,
    /// A call with no identity at all.
    Unsigned,
}

/// Why a governance call was rejected. A rejected call changes nothing.
#[derive(Clone, Copy, Debug, PartialEq, Eq, Structural)]
pub enum Error {
    /// The caller lacks the validator status or the privilege that the call needs.
    AuthorizationDenied,
    /// The candidate is a validator already.
    AlreadyValidator,
    /// The candidate is not a validator.
    NotAValidator,
    /// The caller has voted on this proposal already.
    DuplicateVote,
    /// No proposal is open for the candidate.
    ProposalNotFound,
    /// The proposal does not have the votes that its resolution needs.
    InsufficientVotes,
    /// No operating key is registered for the candidate.
    KeyResolutionFailed,
}

/// What a successful governance call reports to outside observers.
#[derive(Clone, Copy, Debug, PartialEq, Eq, Structural)]
pub enum Event {
    /// `proposer` voted to add `candidate`.
    ValidatorProposed(AccountId, AccountId),
    /// `proposer` voted to remove `candidate`.
    ValidatorRemovalProposed(AccountId, AccountId),
    /// The account became a validator.
    ValidatorAdded(AccountId),
    /// The account stopped being a validator.
    ValidatorRemoved(AccountId),
}

impl Origin {
    /// The signing account, if the call was signed.
    pub fn signer(&self) -> (r: Option<AccountId>)
        ensures
            r == spec_signer(*self),
    {
        match self {
            Origin::Signed(a) => Some(*a),
            _ => None,
        }
    }

    /// Whether the call carries administrative privilege.
    pub fn is_root(&self) -> (r: bool)
        ensures
            r == (*self is Root),
    {
        match self {
            Origin::Root => true,
            _ => false,
        }
    }
}

/// The signing account of an origin, if any.
pub open spec fn spec_signer(o: Origin) -> Option<AccountId> {
    match o {
        Origin::Signed(a) => Some(a),
        _ => None,
    }
}

} // verus!
