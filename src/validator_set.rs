use vstd::prelude::*;

use std::collections::HashMap;

use crate::model::{
    admin_add_spec, admin_remove_spec, lemma_filter_keeps_no_duplicates,
    lemma_push_fresh_keeps_no_duplicates, other_than, admit_spec, dismiss_spec, propose_add_spec,
    propose_remove_spec, resolve_add_spec, resolve_remove_spec, votes_of, GovState,
};
use crate::types::{AccountId, Error, Event, Origin, SessionIndex};
use crate::votes::{
    all_voters_in, cast_vote, clear_proposal, contains, has_proposal, has_voted, table_view, vote_count,
    votes_copy, VoteTable,
};

verus! {

broadcast use vstd::std_specs::hash::group_hash_axioms;

/// The governance store and the operations on it. Every operation either
/// applies all of its changes and returns its event, or returns an error and
/// changes nothing.
pub struct Module {
    validators: Vec<AccountId>,
    add_votes: VoteTable,
    removal_votes: VoteTable,
}

impl View for Module {
    type V = GovState;

    closed spec fn view(&self) -> GovState {
        GovState {
            validators: self.validators@,
            add_votes: table_view(self.add_votes),
            removal_votes: table_view(self.removal_votes),
        }
    }
}

impl Module {
    /// The store's invariant.
    pub open spec fn wf(&self) -> bool {
        self@.wf()
    }

    /// A store with no validator and no proposal.
    pub fn new() -> (r: Module)
        ensures
            r.wf(),
            r@.validators == Seq::<AccountId>::empty(),
            r@.add_votes == Map::<AccountId, Seq<AccountId>>::empty(),
            r@.removal_votes == Map::<AccountId, Seq<AccountId>>::empty(),
    {
        let r = Module {
            validators: Vec::new(),
            add_votes: HashMap::new(),
            removal_votes: HashMap::new(),
        };
        assert(r@.add_votes =~= Map::<AccountId, Seq<AccountId>>::empty());
        assert(r@.removal_votes =~= Map::<AccountId, Seq<AccountId>>::empty());
        r
    }

    /// Whether `account_id` is a validator.
    pub fn is_validator(&self, account_id: AccountId) -> (r: bool)
        ensures
            r == self@.is_validator(account_id),
    {
        contains(&self.validators, account_id)
    }

    /// The current validator set, in order of admission.
    pub fn authorities(&self) -> (r: Vec<AccountId>)
        ensures
            r@ == self@.validators,
    {
        self.validators.clone()
    }

    /// The current validator set, in order of admission.
    pub fn validators(&self) -> (r: Vec<AccountId>)
        ensures
            r@ == self@.validators,
    {
        self.authorities()
    }

    /// Whether a proposal to add `account_id` is open.
    pub fn add_proposals(&self, account_id: AccountId) -> (r: bool)
        ensures
            r == self@.add_votes.contains_key(account_id),
    {
        has_proposal(&self.add_votes, account_id)
    }

    /// Whether a proposal to remove `account_id` is open.
    pub fn removal_proposals(&self, account_id: AccountId) -> (r: bool)
        ensures
            r == self@.removal_votes.contains_key(account_id),
    {
        has_proposal(&self.removal_votes, account_id)
    }

    /// The votes to add `account_id`, in order; empty where none is open.
    pub fn add_votes(&self, account_id: AccountId) -> (r: Vec<AccountId>)
        ensures
            r@ == votes_of(self@.add_votes, account_id),
    {
        votes_copy(&self.add_votes, account_id)
    }

    /// The votes to remove `account_id`, in order; empty where none is open.
    pub fn removal_votes(&self, account_id: AccountId) -> (r: Vec<AccountId>)
        ensures
            r@ == votes_of(self@.removal_votes, account_id),
    {
        votes_copy(&self.removal_votes, account_id)
    }

    /// The set that the next session should adopt: the current one, or
    /// `None`, meaning no change, while the set is empty.
    pub fn next_validators(&self) -> (r: Option<Vec<AccountId>>)
        ensures
            self@.validators.len() == 0 <==> r is None,
            r matches Some(v) ==> v@ == self@.validators,
    {
        if self.validators.len() == 0 {
            None
        } else {
            Some(self.authorities())
        }
    }

    /// Called by the session scheduler at a session boundary: the validator
    /// set for the session that starts, or `None`, meaning no change, while
    /// the set is empty.
    pub fn on_session_ending(&self, _ending: SessionIndex, _start_session: SessionIndex) -> (r:
        Option<Vec<AccountId>>)
        ensures
            self@.validators.len() == 0 <==> r is None,
            r matches Some(v) ==> v@ == self@.validators,
    {
        self.next_validators()
    }

    /// A validator votes to add `account_id`, who must not be a validator
    /// yet. The first vote opens the proposal; a second vote of the same
    /// caller on it is rejected.
    pub fn propose_validator(&mut self, origin: Origin, account_id: AccountId) -> (r: Result<
        Event,
        Error,
    >)
        requires
            old(self).wf(),
        ensures
            final(self).wf(),
            (final(self)@, r) == propose_add_spec(old(self)@, origin, account_id),
    {
        let who = match origin.signer() {
            Some(w) => w,
            None => return Err(Error::AuthorizationDenied),
        };
        if !self.is_validator(who) {
            return Err(Error::AuthorizationDenied);
        }
        if self.is_validator(account_id) {
            return Err(Error::AlreadyValidator);
        }
        if has_voted(&self.add_votes, account_id, who) {
            return Err(Error::DuplicateVote);
        }
        proof {
            lemma_push_fresh_keeps_no_duplicates(votes_of(self@.add_votes, account_id), who);
        }
        cast_vote(&mut self.add_votes, account_id, who);
        Ok(Event::ValidatorProposed(who, account_id))
    }

    /// Any signed caller resolves the proposal to add `account_id`: it is
    /// admitted once the number of votes equals `session_size`, the number
    /// of validators that the session layer counts as eligible to vote, and
    /// every vote is that of a current validator.
    /// `has_session_key` is the key-rotation layer's answer to whether an
    /// operating key is registered for the candidate.
    pub fn resolve_add_validator(
        &mut self,
        origin: Origin,
        account_id: AccountId,
        session_size: u32,
        has_session_key: bool,
    ) -> (r: Result<Event, Error>)
        requires
            old(self).wf(),
        ensures
            final(self).wf(),
            (final(self)@, r) == resolve_add_spec(
                old(self)@,
                origin,
                account_id,
                session_size as nat,
                has_session_key,
            ),
    {
        if origin.signer().is_none() {
            return Err(Error::AuthorizationDenied);
        }
        if !has_proposal(&self.add_votes, account_id) {
            return Err(Error::ProposalNotFound);
        }
        if vote_count(&self.add_votes, account_id) != session_size as usize || !all_voters_in(
            &self.add_votes,
            account_id,
            &self.validators,
        ) {
            return Err(Error::InsufficientVotes);
        }
        self.add_new_authority(account_id, has_session_key)
    }

    /// The administrator admits `account_id` without any vote.
    pub fn add_validator(&mut self, origin: Origin, account_id: AccountId, has_session_key: bool) -> (r:
        Result<Event, Error>)
        requires
            old(self).wf(),
        ensures
            final(self).wf(),
            (final(self)@, r) == admin_add_spec(old(self)@, origin, account_id, has_session_key),
    {
        if !origin.is_root() {
            return Err(Error::AuthorizationDenied);
        }
        self.add_new_authority(account_id, has_session_key)
    }

    /// A validator votes to remove `account_id`, who must be another
    /// validator: no validator votes on its own removal. The first vote opens the proposal; a second vote of the same caller on
    /// it is rejected.
    pub fn propose_validator_removal(&mut self, origin: Origin, account_id: AccountId) -> (r:
        Result<Event, Error>)
        requires
            old(self).wf(),
        ensures
            final(self).wf(),
            (final(self)@, r) == propose_remove_spec(old(self)@, origin, account_id),
    {
        let who = match origin.signer() {
            Some(w) => w,
            None => return Err(Error::AuthorizationDenied),
        };
        if !self.is_validator(who) {
            return Err(Error::AuthorizationDenied);
        }
        if !self.is_validator(account_id) {
            return Err(Error::NotAValidator);
        }
        if who == account_id {
            return Err(Error::AuthorizationDenied);
        }
        if has_voted(&self.removal_votes, account_id, who) {
            return Err(Error::DuplicateVote);
        }
        proof {
            lemma_push_fresh_keeps_no_duplicates(votes_of(self@.removal_votes, account_id), who);
        }
        cast_vote(&mut self.removal_votes, account_id, who);
        Ok(Event::ValidatorRemovalProposed(who, account_id))
    }

    /// Any signed caller resolves the proposal to remove `account_id`: it is
    /// removed once the number of votes is one less than `session_size`, the
    /// candidate itself not being counted.
    pub fn resolve_remove_validator(
        &mut self,
        origin: Origin,
        account_id: AccountId,
        session_size: u32,
    ) -> (r: Result<Event, Error>)
        requires
            old(self).wf(),
        ensures
            final(self).wf(),
            (final(self)@, r) == resolve_remove_spec(
                old(self)@,
                origin,
                account_id,
                session_size as nat,
            ),
    {
        if origin.signer().is_none() {
            return Err(Error::AuthorizationDenied);
        }
        if !has_proposal(&self.removal_votes, account_id) {
            return Err(Error::ProposalNotFound);
        }
        if session_size == 0 || vote_count(&self.removal_votes, account_id) != (session_size
            - 1) as usize {
            return Err(Error::InsufficientVotes);
        }
        self.remove_authority(account_id)
    }

    /// The administrator removes `account_id` without any vote.
    pub fn remove_validator(&mut self, origin: Origin, account_id: AccountId) -> (r: Result<
        Event,
        Error,
    >)
        requires
            old(self).wf(),
        ensures
            final(self).wf(),
            (final(self)@, r) == admin_remove_spec(old(self)@, origin, account_id),
    {
        if !origin.is_root() {
            return Err(Error::AuthorizationDenied);
        }
        self.remove_authority(account_id)
    }

    /// Admits `account_id`: appends it to the validator set and deletes every
    /// proposal and vote for it. `has_session_key` is the key-rotation
    /// layer's answer to whether an operating key is registered for it.
    pub fn add_new_authority(&mut self, account_id: AccountId, has_session_key: bool) -> (r: Result<
        Event,
        Error,
    >)
        requires
            old(self).wf(),
        ensures
            final(self).wf(),
            (final(self)@, r) == admit_spec(old(self)@, account_id, has_session_key),
    {
        if self.is_validator(account_id) {
            return Err(Error::AlreadyValidator);
        }
        if !has_session_key {
            return Err(Error::KeyResolutionFailed);
        }
        proof {
            let ghost old_v = self.validators@;
            assert forall|a: AccountId| old_v.push(account_id).contains(a) <==> (old_v.contains(a)
                || a == account_id) by {
                if a == account_id {
                    assert(old_v.push(account_id)[old_v.len() as int] == a);
                }
                if old_v.contains(a) {
                    let j = choose|j: int| 0 <= j < old_v.len() && old_v[j] == a;
                    assert(old_v.push(account_id)[j] == a);
                }
            }
        }
        self.validators.push(account_id);
        clear_proposal(&mut self.add_votes, account_id);
        clear_proposal(&mut self.removal_votes, account_id);
        Ok(Event::ValidatorAdded(account_id))
    }

    /// Removes `account_id`: takes it out of the validator set and deletes
    /// every proposal and vote for it.
    pub fn remove_authority(&mut self, account_id: AccountId) -> (r: Result<Event, Error>)
        requires
            old(self).wf(),
        ensures
            final(self).wf(),
            (final(self)@, r) == dismiss_spec(old(self)@, account_id),
    {
        if !self.is_validator(account_id) {
            return Err(Error::NotAValidator);
        }
        let mut kept: Vec<AccountId> = Vec::new();
        let mut i: usize = 0;
        while i < self.validators.len()
            invariant
                i <= self.validators.len(),
                kept@ == self.validators@.subrange(0, i as int).filter(other_than(account_id)),
            decreases self.validators.len() - i,
        {
            let v = self.validators[i];
            proof {
                let ghost pre = self.validators@.subrange(0, i as int);
                assert(self.validators@.subrange(0, i as int + 1) =~= pre.push(v));
                pre.lemma_filter_push(v, other_than(account_id));
                assert(other_than(account_id)(v) == (v != account_id));
            }
            if v != account_id {
                kept.push(v);
            }
            i = i + 1;
        }
        proof {
            assert(self.validators@.subrange(0, self.validators@.len() as int)
                =~= self.validators@);
            lemma_filter_keeps_no_duplicates(self.validators@, other_than(account_id));
        }
        self.validators = kept;
        clear_proposal(&mut self.add_votes, account_id);
        clear_proposal(&mut self.removal_votes, account_id);
        Ok(Event::ValidatorRemoved(account_id))
    }
}

} // verus!
