use vstd::prelude::*;

use std::collections::HashMap;

use crate::model::votes_of;
use crate::types::AccountId;

verus! {

broadcast use vstd::std_specs::hash::group_hash_axioms;

/// A vote table: for each candidate with an open proposal, its voters in order.
pub type VoteTable = HashMap<AccountId, Vec<AccountId>>;

/// What a vote table holds, with each record seen as a sequence.
pub open spec fn table_view(t: VoteTable) -> Map<AccountId, Seq<AccountId>> {
    t@.map_values(|v: Vec<AccountId>| v@)
}

/// Whether `a` occurs in `v`.
pub fn contains(v: &Vec<AccountId>, a: AccountId) -> (r: bool)
    ensures
        r == v@.contains(a),
{
    let mut i: usize = 0;
    while i < v.len()
        invariant
            i <= v.len(),
            forall|j: int| 0 <= j < i ==> v@[j] != a,
        decreases v.len() - i,
    {
        if v[i] == a {
            return true;
        }
        i = i + 1;
    }
    false
}

/// Whether a proposal is open for `c`.
pub fn has_proposal(t: &VoteTable, c: AccountId) -> (r: bool)
    ensures
        r == table_view(*t).contains_key(c),
{
    t.contains_key(&c)
}

/// Whether `who` has voted on the proposal for `c`; false where none is open.
pub fn has_voted(t: &VoteTable, c: AccountId, who: AccountId) -> (r: bool)
    ensures
        r == votes_of(table_view(*t), c).contains(who),
{
    match t.get(&c) {
        Some(v) => contains(v, who),
        None => false,
    }
}

/// The number of votes for `c`; zero where no proposal is open.
pub fn vote_count(t: &VoteTable, c: AccountId) -> (r: usize)
    ensures
        r == votes_of(table_view(*t), c).len(),
{
    match t.get(&c) {
        Some(v) => v.len(),
        None => 0,
    }
}

/// Whether every vote for `c` is that of an account in `members`; true where
/// no proposal is open.
pub fn all_voters_in(t: &VoteTable, c: AccountId, members: &Vec<AccountId>) -> (r: bool)
    ensures
        r == forall|v: AccountId| #[trigger]
            votes_of(table_view(*t), c).contains(v) ==> members@.contains(v),
{
    match t.get(&c) {
        Some(votes) => {
            let mut i: usize = 0;
            while i < votes.len()
                invariant
                    i <= votes.len(),
                    votes@ == votes_of(table_view(*t), c),
                    forall|j: int| 0 <= j < i ==> members@.contains(#[trigger] votes@[j]),
                decreases votes.len() - i,
            {
                if !contains(members, votes[i]) {
                    assert(votes@.contains(votes@[i as int]));
                    return false;
                }
                i = i + 1;
            }
            true
        },
        None => true,
    }
}

/// The votes for `c`, in order; empty where no proposal is open.
pub fn votes_copy(t: &VoteTable, c: AccountId) -> (r: Vec<AccountId>)
    ensures
        r@ == votes_of(table_view(*t), c),
{
    let mut out: Vec<AccountId> = Vec::new();
    match t.get(&c) {
        Some(v) => {
            let mut i: usize = 0;
            while i < v.len()
                invariant
                    i <= v.len(),
                    out@ == v@.subrange(0, i as int),
                decreases v.len() - i,
            {
                out.push(v[i]);
                i = i + 1;
                assert(out@ =~= v@.subrange(0, i as int));
            }
            assert(out@ =~= v@);
        },
        None => {},
    }
    out
}

/// Appends `who` to the votes for `c`, opening the proposal if none is open.
pub fn cast_vote(t: &mut VoteTable, c: AccountId, who: AccountId)
    ensures
        table_view(*final(t)) == table_view(*old(t)).insert(
            c,
            votes_of(table_view(*old(t)), c).push(who),
        ),
{
    let mut votes = match t.remove(&c) {
        Some(v) => v,
        None => Vec::new(),
    };
    votes.push(who);
    t.insert(c, votes);
    assert(table_view(*t) =~= table_view(*old(t)).insert(
        c,
        votes_of(table_view(*old(t)), c).push(who),
    ));
}

/// Deletes the proposal for `c` and its votes, if any.
pub fn clear_proposal(t: &mut VoteTable, c: AccountId)
    ensures
        table_view(*final(t)) == table_view(*old(t)).remove(c),
{
    t.remove(&c);
    assert(table_view(*t) =~= table_view(*old(t)).remove(c));
}

} // verus!
