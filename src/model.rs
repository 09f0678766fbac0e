use vstd::prelude::*;

use crate::types::{spec_signer, AccountId, Error, Event, Origin};

verus! {

/// The governance store, mathematically: the validator set in order, and for
/// each candidate with an open proposal the accounts that voted for it, in
/// the order of their votes. A candidate has an open proposal exactly when it
/// is a key of the map.
pub struct GovState {
    pub validators: Seq<AccountId>,
    pub add_votes: Map<AccountId, Seq<AccountId>>,
    pub removal_votes: Map<AccountId, Seq<AccountId>>,
}

/// The votes recorded for `c`: empty where no proposal is open.
pub open spec fn votes_of(m: Map<AccountId, Seq<AccountId>>, c: AccountId) -> Seq<AccountId> {
    if m.contains_key(c) {
        m[c]
    } else {
        Seq::empty()
    }
}

/// A vote table is consistent: every open proposal has at least one vote and
/// no account voted twice on it.
pub open spec fn votes_wf(m: Map<AccountId, Seq<AccountId>>) -> bool {
    &&& forall|c: AccountId| #[trigger]
        m.contains_key(c) ==> m[c].len() > 0 && m[c].no_duplicates()
}

/// The test that keeps every account but `c`.
pub open spec fn other_than(c: AccountId) -> spec_fn(AccountId) -> bool {
    |v: AccountId| v != c
}

impl GovState {
    /// The store's invariant: no validator twice, consistent vote tables.
    pub open spec fn wf(self) -> bool {
        &&& self.validators.no_duplicates()
        &&& votes_wf(self.add_votes)
        &&& votes_wf(self.removal_votes)
    }

    /// Whether `a` is a validator.
    pub open spec fn is_validator(self, a: AccountId) -> bool {
        self.validators.contains(a)
    }

    /// Whether any proposal, to add or to remove, is open for `c`.
    pub open spec fn has_proposal_state(self, c: AccountId) -> bool {
        self.add_votes.contains_key(c) || self.removal_votes.contains_key(c)
    }

    /// The state with every proposal and vote for `c` deleted.
    pub open spec fn cleared(self, c: AccountId) -> GovState {
        GovState {
            validators: self.validators,
            add_votes: self.add_votes.remove(c),
            removal_votes: self.removal_votes.remove(c),
        }
    }

    /// `c` admitted: appended to the validator set, its proposals deleted.
    pub open spec fn admitted(self, c: AccountId) -> GovState {
        GovState { validators: self.validators.push(c), ..self.cleared(c) }
    }

    /// `c` removed: taken out of the validator set, its proposals deleted.
    pub open spec fn dismissed(self, c: AccountId) -> GovState {
        GovState { validators: self.validators.filter(other_than(c)), ..self.cleared(c) }
    }

    /// `who`'s vote to add `c` appended; the proposal opened if need be.
    pub open spec fn with_add_vote(self, c: AccountId, who: AccountId) -> GovState {
        GovState {
            add_votes: self.add_votes.insert(c, votes_of(self.add_votes, c).push(who)),
            ..self
        }
    }

    /// `who`'s vote to remove `c` appended; the proposal opened if need be.
    pub open spec fn with_removal_vote(self, c: AccountId, who: AccountId) -> GovState {
        GovState {
            removal_votes: self.removal_votes.insert(
                c,
                votes_of(self.removal_votes, c).push(who),
            ),
            ..self
        }
    }
}

/// The outcome of a call that may change the store: the store afterwards,
/// and the event or the error. A rejected call leaves the store as it was.
pub open spec fn outcome(
    s: GovState,
    r: Result<Event, Error>,
    next: GovState,
) -> (GovState, Result<Event, Error>) {
    match r {
        Ok(_) => (next, r),
        Err(_) => (s, r),
    }
}

/// Admission of `c` itself, once the caller and the votes are settled: it
/// fails when `c` is a validator already or has no operating key.
pub open spec fn admit_spec(s: GovState, c: AccountId, has_key: bool) -> (
    GovState,
    Result<Event, Error>,
) {
    let r = if s.is_validator(c) {
        Err(Error::AlreadyValidator)
    } else if !has_key {
        Err(Error::KeyResolutionFailed)
    } else {
        Ok(Event::ValidatorAdded(c))
    };
    outcome(s, r, s.admitted(c))
}

/// Removal of `c` itself, once the caller and the votes are settled: it fails
/// when `c` is not a validator.
pub open spec fn dismiss_spec(s: GovState, c: AccountId) -> (GovState, Result<Event, Error>) {
    let r = if !s.is_validator(c) {
        Err(Error::NotAValidator)
    } else {
        Ok(Event::ValidatorRemoved(c))
    };
    outcome(s, r, s.dismissed(c))
}

/// A validator votes to add `c`, who must not be a validator; a second vote
/// of the same account on the same proposal is rejected.
pub open spec fn propose_add_spec(s: GovState, origin: Origin, c: AccountId) -> (
    GovState,
    Result<Event, Error>,
) {
    match spec_signer(origin) {
        Some(who) => {
            let r = if !s.is_validator(who) {
                Err(Error::AuthorizationDenied)
            } else if s.is_validator(c) {
                Err(Error::AlreadyValidator)
            } else if votes_of(s.add_votes, c).contains(who) {
                Err(Error::DuplicateVote)
            } else {
                Ok(Event::ValidatorProposed(who, c))
            };
            outcome(s, r, s.with_add_vote(c, who))
        },
        None => (s, Err(Error::AuthorizationDenied)),
    }
}

/// Whether every account in `votes` is a current validator.
pub open spec fn all_validators(s: GovState, votes: Seq<AccountId>) -> bool {
    forall|v: AccountId| #[trigger] votes.contains(v) ==> s.is_validator(v)
}

/// Any signed caller resolves an add proposal: it succeeds once the number of
/// votes equals `session_size`, the number of validators that the session
/// layer counts as eligible to vote, and every vote is that of a current
/// validator. A vote left by an account that has since stopped being a
/// validator does not count towards unanimity.
pub open spec fn resolve_add_spec(
    s: GovState,
    origin: Origin,
    c: AccountId,
    session_size: nat,
    has_key: bool,
) -> (GovState, Result<Event, Error>) {
    if spec_signer(origin) is None {
        (s, Err(Error::AuthorizationDenied))
    } else if !s.add_votes.contains_key(c) {
        (s, Err(Error::ProposalNotFound))
    } else if s.add_votes[c].len() != session_size || !all_validators(s, s.add_votes[c]) {
        (s, Err(Error::InsufficientVotes))
    } else {
        admit_spec(s, c, has_key)
    }
}

/// The administrator admits `c` without any vote.
pub open spec fn admin_add_spec(s: GovState, origin: Origin, c: AccountId, has_key: bool) -> (
    GovState,
    Result<Event, Error>,
) {
    if !(origin is Root) {
        (s, Err(Error::AuthorizationDenied))
    } else {
        admit_spec(s, c, has_key)
    }
}

/// A validator votes to remove `c`, who must be a validator other than the
/// caller: no validator votes on its own removal. A second vote of the same
/// account on the same proposal is rejected.
pub open spec fn propose_remove_spec(s: GovState, origin: Origin, c: AccountId) -> (
    GovState,
    Result<Event, Error>,
) {
    match spec_signer(origin) {
        Some(who) => {
            let r = if !s.is_validator(who) {
                Err(Error::AuthorizationDenied)
            } else if !s.is_validator(c) {
                Err(Error::NotAValidator)
            } else if who == c {
                Err(Error::AuthorizationDenied)
            } else if votes_of(s.removal_votes, c).contains(who) {
                Err(Error::DuplicateVote)
            } else {
                Ok(Event::ValidatorRemovalProposed(who, c))
            };
            outcome(s, r, s.with_removal_vote(c, who))
        },
        None => (s, Err(Error::AuthorizationDenied)),
    }
}

/// Any signed caller resolves a removal proposal: it succeeds once the number
/// of votes is one less than `session_size`, the candidate not counted.
pub open spec fn resolve_remove_spec(
    s: GovState,
    origin: Origin,
    c: AccountId,
    session_size: nat,
) -> (GovState, Result<Event, Error>) {
    if spec_signer(origin) is None {
        (s, Err(Error::AuthorizationDenied))
    } else if !s.removal_votes.contains_key(c) {
        (s, Err(Error::ProposalNotFound))
    } else if s.removal_votes[c].len() != session_size - 1 {
        (s, Err(Error::InsufficientVotes))
    } else {
        dismiss_spec(s, c)
    }
}

/// The administrator removes `c` without any vote.
pub open spec fn admin_remove_spec(s: GovState, origin: Origin, c: AccountId) -> (
    GovState,
    Result<Event, Error>,
) {
    if !(origin is Root) {
        (s, Err(Error::AuthorizationDenied))
    } else {
        dismiss_spec(s, c)
    }
}

/// Appending an element that is not there keeps a sequence free of duplicates.
pub(crate) proof fn lemma_push_fresh_keeps_no_duplicates(s: Seq<AccountId>, a: AccountId)
    requires
        s.no_duplicates(),
        !s.contains(a),
    ensures
        s.push(a).no_duplicates(),
{
    assert forall|i: int, j: int|
        0 <= i < s.push(a).len() && 0 <= j < s.push(a).len() && i != j implies s.push(a)[i]
        != s.push(a)[j] by {
        if i < s.len() && j == s.len() {
            assert(s.contains(s[i]));
        }
        if j < s.len() && i == s.len() {
            assert(s.contains(s[j]));
        }
    }
}

/// Filtering a sequence without duplicates leaves none.
pub(crate) proof fn lemma_filter_keeps_no_duplicates(s: Seq<AccountId>, keep: spec_fn(AccountId) -> bool)
    requires
        s.no_duplicates(),
    ensures
        s.filter(keep).no_duplicates(),
    decreases s.len(),
{
    reveal(Seq::filter);
    if s.len() > 0 {
        let rest = s.drop_last();
        assert(rest.no_duplicates());
        lemma_filter_keeps_no_duplicates(rest, keep);
        if keep(s.last()) {
            assert(!rest.contains(s.last()));
            assert(!rest.filter(keep).contains(s.last())) by {
                if rest.filter(keep).contains(s.last()) {
                    rest.lemma_filter_contains_rev(keep, s.last());
                }
            }
        }
    }
}

} // verus!
