use vstd::prelude::*;
use vstd::set_lib::lemma_subset_equality;

use crate::model::{
    admin_add_spec, admin_remove_spec, all_validators, lemma_filter_keeps_no_duplicates,
    lemma_push_fresh_keeps_no_duplicates, other_than, propose_add_spec, propose_remove_spec,
    resolve_add_spec, resolve_remove_spec, votes_of, GovState,
};
use crate::types::{spec_signer, AccountId, Error, Origin};

verus! {

broadcast use vstd::seq_lib::group_seq_properties;

/// Admission is unanimous. With `n >= 1` validators, all counted by the
/// session layer, resolving a signed add proposal for a candidate that may
/// join succeeds exactly when `n` distinct accounts voted for it, each a
/// current validator; that is, exactly when the voters are the validators.
pub proof fn lemma_unanimity_for_admission(
    s: GovState,
    origin: Origin,
    c: AccountId,
    n: nat,
    has_key: bool,
)
    requires
        s.wf(),
        n >= 1,
        n == s.validators.len(),
        spec_signer(origin) is Some,
        !s.is_validator(c),
        has_key,
    ensures
        resolve_add_spec(s, origin, c, n, has_key).1 is Ok <==> {
            &&& s.add_votes.contains_key(c)
            &&& s.add_votes[c].len() == n
            &&& s.add_votes[c].no_duplicates()
            &&& all_validators(s, s.add_votes[c])
        },
        resolve_add_spec(s, origin, c, n, has_key).1 is Ok <==> forall|v: AccountId|
            #[trigger] votes_of(s.add_votes, c).contains(v) <==> s.is_validator(v),
{
    let votes = votes_of(s.add_votes, c);
    let vs = s.validators.to_set();
    let ws = votes.to_set();
    s.validators.unique_seq_to_set();
    if resolve_add_spec(s, origin, c, n, has_key).1 is Ok {
        assert(ws.subset_of(vs));
        votes.unique_seq_to_set();
        lemma_subset_equality(ws, vs);
        assert forall|v: AccountId| #[trigger] votes.contains(v) <==> s.is_validator(v) by {
            assert(vs.contains(v) == s.is_validator(v));
            assert(ws.contains(v) == votes.contains(v));
        }
    }
    if forall|v: AccountId| #[trigger] votes.contains(v) <==> s.is_validator(v) {
        assert(s.is_validator(s.validators[0]));
        assert(votes.contains(s.validators[0]));
        assert(s.add_votes.contains_key(c));
        assert(all_validators(s, votes));
        assert forall|v: AccountId| vs.contains(v) <==> ws.contains(v) by {
            assert(s.is_validator(v) <==> votes.contains(v));
        }
        assert(ws =~= vs);
        votes.unique_seq_to_set();
    }
}

/// Removal waits for everyone else. Resolving a signed removal proposal for a
/// validator succeeds exactly when `n - 1` distinct accounts voted for it,
/// `n` being the number of validators that the session layer counts.
pub proof fn lemma_unanimity_for_removal(s: GovState, origin: Origin, c: AccountId, n: nat)
    requires
        s.wf(),
        spec_signer(origin) is Some,
        s.is_validator(c),
    ensures
        resolve_remove_spec(s, origin, c, n).1 is Ok <==> {
            &&& s.removal_votes.contains_key(c)
            &&& s.removal_votes[c].len() == n - 1
            &&& s.removal_votes[c].no_duplicates()
        },
{
}

/// A vote counts once. Right after a caller's vote on a proposal was
/// accepted, the same vote again is rejected and changes nothing.
pub proof fn lemma_second_vote_rejected(s: GovState, origin: Origin, c: AccountId)
    requires
        s.wf(),
    ensures
        propose_add_spec(s, origin, c).1 is Ok ==> {
            let s1 = propose_add_spec(s, origin, c).0;
            propose_add_spec(s1, origin, c) == (s1, Err::<crate::types::Event, Error>(
                Error::DuplicateVote,
            ))
        },
        propose_remove_spec(s, origin, c).1 is Ok ==> {
            let s1 = propose_remove_spec(s, origin, c).0;
            propose_remove_spec(s1, origin, c) == (s1, Err::<crate::types::Event, Error>(
                Error::DuplicateVote,
            ))
        },
{
    if let Some(who) = spec_signer(origin) {
        let a = votes_of(s.add_votes, c);
        assert(a.push(who)[a.len() as int] == who);
        let r = votes_of(s.removal_votes, c);
        assert(r.push(who)[r.len() as int] == who);
    }
}

/// Voting only appends. Whether it succeeds or not, a vote leaves every
/// vote record of every candidate as a prefix of what it becomes.
pub proof fn lemma_votes_only_grow(s: GovState, origin: Origin, c: AccountId, k: AccountId)
    ensures
        ({
            let t = propose_add_spec(s, origin, c).0;
            &&& votes_of(s.add_votes, k).len() <= votes_of(t.add_votes, k).len()
            &&& votes_of(s.add_votes, k) == votes_of(t.add_votes, k).subrange(
                0,
                votes_of(s.add_votes, k).len() as int,
            )
            &&& t.removal_votes == s.removal_votes
        }),
        ({
            let t = propose_remove_spec(s, origin, c).0;
            &&& votes_of(s.removal_votes, k).len() <= votes_of(t.removal_votes, k).len()
            &&& votes_of(s.removal_votes, k) == votes_of(t.removal_votes, k).subrange(
                0,
                votes_of(s.removal_votes, k).len() as int,
            )
            &&& t.add_votes == s.add_votes
        }),
{
    let a = votes_of(s.add_votes, k);
    assert(a.push(0).subrange(0, a.len() as int) =~= a);
    assert(a.subrange(0, a.len() as int) =~= a);
    if let Some(who) = spec_signer(origin) {
        assert(a.push(who).subrange(0, a.len() as int) =~= a);
    }
    let r = votes_of(s.removal_votes, k);
    assert(r.subrange(0, r.len() as int) =~= r);
    if let Some(who) = spec_signer(origin) {
        assert(r.push(who).subrange(0, r.len() as int) =~= r);
    }
}

/// A resolution leaves a clean slate. After any successful admission or
/// removal, by vote or by the administrator, no proposal of either kind is
/// open for the candidate.
pub proof fn lemma_resolution_clears_proposals(
    s: GovState,
    origin: Origin,
    c: AccountId,
    n: nat,
    has_key: bool,
)
    ensures
        resolve_add_spec(s, origin, c, n, has_key).1 is Ok ==> !resolve_add_spec(
            s,
            origin,
            c,
            n,
            has_key,
        ).0.has_proposal_state(c),
        admin_add_spec(s, origin, c, has_key).1 is Ok ==> !admin_add_spec(
            s,
            origin,
            c,
            has_key,
        ).0.has_proposal_state(c),
        resolve_remove_spec(s, origin, c, n).1 is Ok ==> !resolve_remove_spec(
            s,
            origin,
            c,
            n,
        ).0.has_proposal_state(c),
        admin_remove_spec(s, origin, c).1 is Ok ==> !admin_remove_spec(
            s,
            origin,
            c,
        ).0.has_proposal_state(c),
{
}

/// Membership is a set, and only admissions and removals change it. Every
/// call keeps the store free of duplicate validators and of repeated votes;
/// votes leave the validator set as it was; a successful admission adds the
/// candidate and no one else, a successful removal takes out the candidate
/// and no one else.
pub proof fn lemma_membership_changes(
    s: GovState,
    origin: Origin,
    c: AccountId,
    n: nat,
    has_key: bool,
)
    requires
        s.wf(),
    ensures
        propose_add_spec(s, origin, c).0.wf(),
        propose_remove_spec(s, origin, c).0.wf(),
        resolve_add_spec(s, origin, c, n, has_key).0.wf(),
        admin_add_spec(s, origin, c, has_key).0.wf(),
        resolve_remove_spec(s, origin, c, n).0.wf(),
        admin_remove_spec(s, origin, c).0.wf(),
        propose_add_spec(s, origin, c).0.validators == s.validators,
        propose_remove_spec(s, origin, c).0.validators == s.validators,
        resolve_add_spec(s, origin, c, n, has_key).1 is Ok ==> forall|a: AccountId|
            #[trigger] resolve_add_spec(s, origin, c, n, has_key).0.is_validator(a) <==> (
            s.is_validator(a) || a == c),
        admin_add_spec(s, origin, c, has_key).1 is Ok ==> forall|a: AccountId|
            #[trigger] admin_add_spec(s, origin, c, has_key).0.is_validator(a) <==> (
            s.is_validator(a) || a == c),
        resolve_remove_spec(s, origin, c, n).1 is Ok ==> forall|a: AccountId|
            #[trigger] resolve_remove_spec(s, origin, c, n).0.is_validator(a) <==> (
            s.is_validator(a) && a != c),
        admin_remove_spec(s, origin, c).1 is Ok ==> forall|a: AccountId|
            #[trigger] admin_remove_spec(s, origin, c).0.is_validator(a) <==> (
            s.is_validator(a) && a != c),
        resolve_add_spec(s, origin, c, n, has_key).1 is Err ==> resolve_add_spec(
            s,
            origin,
            c,
            n,
            has_key,
        ).0 == s,
        admin_add_spec(s, origin, c, has_key).1 is Err ==> admin_add_spec(
            s,
            origin,
            c,
            has_key,
        ).0 == s,
        resolve_remove_spec(s, origin, c, n).1 is Err ==> resolve_remove_spec(
            s,
            origin,
            c,
            n,
        ).0 == s,
        admin_remove_spec(s, origin, c).1 is Err ==> admin_remove_spec(s, origin, c).0 == s,
{
    let v = s.validators;
    let kept = v.filter(other_than(c));
    lemma_filter_keeps_no_duplicates(v, other_than(c));
    assert forall|a: AccountId| kept.contains(a) <==> (v.contains(a) && a != c) by {
        if v.contains(a) && a != c {
            v.filter_lemma(other_than(c));
        }
        if kept.contains(a) {
            v.lemma_filter_contains_rev(other_than(c), a);
        }
    }
    if !s.is_validator(c) {
        lemma_push_fresh_keeps_no_duplicates(v, c);
    }
    if let Some(who) = spec_signer(origin) {
        if !votes_of(s.add_votes, c).contains(who) {
            lemma_push_fresh_keeps_no_duplicates(votes_of(s.add_votes, c), who);
        }
        if !votes_of(s.removal_votes, c).contains(who) {
            lemma_push_fresh_keeps_no_duplicates(votes_of(s.removal_votes, c), who);
        }
    }
}

/// The administrator needs no vote. What an administrative admission or
/// removal does depends on the validator set alone, never on the votes; it
/// succeeds whenever the candidate may join (or is there to leave), and it
/// leaves no proposal open for the candidate.
pub proof fn lemma_admin_bypass(s: GovState, t: GovState, c: AccountId, has_key: bool)
    requires
        s.validators == t.validators,
    ensures
        admin_add_spec(s, Origin::Root, c, has_key).1 == admin_add_spec(
            t,
            Origin::Root,
            c,
            has_key,
        ).1,
        admin_add_spec(s, Origin::Root, c, has_key).0.validators == admin_add_spec(
            t,
            Origin::Root,
            c,
            has_key,
        ).0.validators,
        admin_remove_spec(s, Origin::Root, c).1 == admin_remove_spec(t, Origin::Root, c).1,
        admin_remove_spec(s, Origin::Root, c).0.validators == admin_remove_spec(
            t,
            Origin::Root,
            c,
        ).0.validators,
        !s.is_validator(c) && has_key ==> admin_add_spec(s, Origin::Root, c, has_key).1
            is Ok && !admin_add_spec(s, Origin::Root, c, has_key).0.has_proposal_state(c),
        s.is_validator(c) ==> admin_remove_spec(s, Origin::Root, c).1 is Ok
            && !admin_remove_spec(s, Origin::Root, c).0.has_proposal_state(c),
{
}

} // verus!
