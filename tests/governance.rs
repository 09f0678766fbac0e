use validatorset::{Error, Event, Module, Origin};

const A: u64 = 1;
const B: u64 = 2;
const C: u64 = 3;
const D: u64 = 4;

/// A store whose validators are A, B and C, admitted by the administrator.
fn three_validators() -> Module {
    let mut m = Module::new();
    for v in [A, B, C] {
        assert_eq!(m.add_validator(Origin::Root, v, true), Ok(Event::ValidatorAdded(v)));
    }
    assert_eq!(m.authorities(), vec![A, B, C]);
    m
}

#[test]
fn unanimous_vote_admits_candidate() {
    let mut m = three_validators();
    assert_eq!(m.propose_validator(Origin::Signed(A), D), Ok(Event::ValidatorProposed(A, D)));
    assert_eq!(m.propose_validator(Origin::Signed(B), D), Ok(Event::ValidatorProposed(B, D)));
    assert_eq!(m.propose_validator(Origin::Signed(C), D), Ok(Event::ValidatorProposed(C, D)));
    assert_eq!(m.add_votes(D), vec![A, B, C]);
    assert_eq!(m.resolve_add_validator(Origin::Signed(A), D, 3, true), Ok(Event::ValidatorAdded(D)));
    assert_eq!(m.authorities(), vec![A, B, C, D]);
    assert!(!m.add_proposals(D));
    assert!(!m.removal_proposals(D));
    assert!(m.add_votes(D).is_empty());
    assert!(m.removal_votes(D).is_empty());
}

#[test]
fn two_of_three_votes_are_not_enough() {
    let mut m = three_validators();
    m.propose_validator(Origin::Signed(A), D).unwrap();
    m.propose_validator(Origin::Signed(B), D).unwrap();
    assert_eq!(m.resolve_add_validator(Origin::Signed(A), D, 3, true), Err(Error::InsufficientVotes));
    assert_eq!(m.authorities(), vec![A, B, C]);
    assert_eq!(m.add_votes(D), vec![A, B]);
    assert!(m.add_proposals(D));
}

#[test]
fn removal_needs_all_others() {
    let mut m = three_validators();
    assert_eq!(
        m.propose_validator_removal(Origin::Signed(A), C),
        Ok(Event::ValidatorRemovalProposed(A, C))
    );
    assert_eq!(m.resolve_remove_validator(Origin::Signed(A), C, 3), Err(Error::InsufficientVotes));
    assert_eq!(m.authorities(), vec![A, B, C]);
    m.propose_validator_removal(Origin::Signed(B), C).unwrap();
    assert_eq!(m.resolve_remove_validator(Origin::Signed(B), C, 3), Ok(Event::ValidatorRemoved(C)));
    assert_eq!(m.authorities(), vec![A, B]);
    assert!(!m.removal_proposals(C));
    assert!(m.removal_votes(C).is_empty());
}

#[test]
fn second_vote_is_rejected() {
    let mut m = three_validators();
    m.propose_validator(Origin::Signed(A), D).unwrap();
    assert_eq!(m.propose_validator(Origin::Signed(A), D), Err(Error::DuplicateVote));
    assert_eq!(m.add_votes(D), vec![A]);
    m.propose_validator_removal(Origin::Signed(B), C).unwrap();
    assert_eq!(m.propose_validator_removal(Origin::Signed(B), C), Err(Error::DuplicateVote));
    assert_eq!(m.removal_votes(C), vec![B]);
}

#[test]
fn admin_add_clears_stray_proposals() {
    let mut m = three_validators();
    m.propose_validator(Origin::Signed(A), D).unwrap();
    assert_eq!(m.add_validator(Origin::Root, D, true), Ok(Event::ValidatorAdded(D)));
    assert_eq!(m.authorities(), vec![A, B, C, D]);
    assert!(!m.add_proposals(D));
    assert!(m.add_votes(D).is_empty());
}

#[test]
fn admin_remove_ignores_votes_and_clears() {
    let mut m = three_validators();
    m.propose_validator_removal(Origin::Signed(A), B).unwrap();
    assert_eq!(m.remove_validator(Origin::Root, B), Ok(Event::ValidatorRemoved(B)));
    assert_eq!(m.authorities(), vec![A, C]);
    assert!(!m.removal_proposals(B));
    assert!(m.removal_votes(B).is_empty());
    // A clean slate: B can be proposed again from the start.
    assert_eq!(m.propose_validator(Origin::Signed(A), B), Ok(Event::ValidatorProposed(A, B)));
    assert_eq!(m.add_votes(B), vec![A]);
}

#[test]
fn admin_calls_need_root() {
    let mut m = three_validators();
    assert_eq!(m.add_validator(Origin::Signed(A), D, true), Err(Error::AuthorizationDenied));
    assert_eq!(m.add_validator(Origin::Unsigned, D, true), Err(Error::AuthorizationDenied));
    assert_eq!(m.remove_validator(Origin::Signed(A), B), Err(Error::AuthorizationDenied));
    assert_eq!(m.authorities(), vec![A, B, C]);
}

#[test]
fn admin_add_of_validator_fails() {
    let mut m = three_validators();
    assert_eq!(m.add_validator(Origin::Root, B, true), Err(Error::AlreadyValidator));
    assert_eq!(m.remove_validator(Origin::Root, D), Err(Error::NotAValidator));
    assert_eq!(m.authorities(), vec![A, B, C]);
}

#[test]
fn missing_session_key_blocks_admission() {
    let mut m = three_validators();
    assert_eq!(m.add_validator(Origin::Root, D, false), Err(Error::KeyResolutionFailed));
    for v in [A, B, C] {
        m.propose_validator(Origin::Signed(v), D).unwrap();
    }
    assert_eq!(m.resolve_add_validator(Origin::Signed(A), D, 3, false), Err(Error::KeyResolutionFailed));
    assert_eq!(m.authorities(), vec![A, B, C]);
    assert_eq!(m.add_votes(D), vec![A, B, C]);
}

#[test]
fn only_validators_may_propose() {
    let mut m = three_validators();
    assert_eq!(m.propose_validator(Origin::Signed(D), 5), Err(Error::AuthorizationDenied));
    assert_eq!(m.propose_validator(Origin::Root, D), Err(Error::AuthorizationDenied));
    assert_eq!(m.propose_validator_removal(Origin::Signed(D), A), Err(Error::AuthorizationDenied));
    assert_eq!(m.propose_validator_removal(Origin::Unsigned, A), Err(Error::AuthorizationDenied));
    assert!(!m.add_proposals(5));
    assert!(!m.removal_proposals(A));
}

#[test]
fn proposals_check_candidate_membership() {
    let mut m = three_validators();
    assert_eq!(m.propose_validator(Origin::Signed(A), B), Err(Error::AlreadyValidator));
    assert_eq!(m.propose_validator_removal(Origin::Signed(A), D), Err(Error::NotAValidator));
}

#[test]
fn resolve_without_proposal_fails() {
    let mut m = three_validators();
    assert_eq!(m.resolve_add_validator(Origin::Signed(D), D, 3, true), Err(Error::ProposalNotFound));
    assert_eq!(m.resolve_remove_validator(Origin::Signed(D), C, 3), Err(Error::ProposalNotFound));
    assert_eq!(m.resolve_add_validator(Origin::Root, D, 3, true), Err(Error::AuthorizationDenied));
    assert_eq!(m.resolve_remove_validator(Origin::Unsigned, C, 3), Err(Error::AuthorizationDenied));
}

#[test]
fn resolve_add_of_validator_fails() {
    let mut m = three_validators();
    for v in [A, B, C] {
        m.propose_validator(Origin::Signed(v), D).unwrap();
    }
    m.add_validator(Origin::Root, D, true).unwrap();
    // The administrator cleared the proposal: nothing is left to resolve.
    assert_eq!(m.resolve_add_validator(Origin::Signed(A), D, 3, true), Err(Error::ProposalNotFound));
}

#[test]
fn too_many_votes_do_not_resolve() {
    let mut m = three_validators();
    for v in [A, B, C] {
        m.propose_validator(Origin::Signed(v), D).unwrap();
    }
    // The session layer counts only two voters: three votes do not match.
    assert_eq!(m.resolve_add_validator(Origin::Signed(A), D, 2, true), Err(Error::InsufficientVotes));
}

#[test]
fn removal_with_empty_session_never_resolves() {
    let mut m = three_validators();
    m.propose_validator_removal(Origin::Signed(A), C).unwrap();
    assert_eq!(m.resolve_remove_validator(Origin::Signed(A), C, 0), Err(Error::InsufficientVotes));
    assert_eq!(m.resolve_remove_validator(Origin::Signed(A), C, 2), Ok(Event::ValidatorRemoved(C)));
}

#[test]
fn removal_of_departed_validator_fails() {
    let mut m = three_validators();
    m.propose_validator_removal(Origin::Signed(A), C).unwrap();
    m.propose_validator_removal(Origin::Signed(B), C).unwrap();
    m.remove_validator(Origin::Root, C).unwrap();
    assert_eq!(m.resolve_remove_validator(Origin::Signed(A), C, 3), Err(Error::ProposalNotFound));
    m.propose_validator(Origin::Signed(A), C).unwrap();
    m.propose_validator(Origin::Signed(B), C).unwrap();
    assert_eq!(m.resolve_add_validator(Origin::Signed(A), C, 2, true), Ok(Event::ValidatorAdded(C)));
    assert_eq!(m.authorities(), vec![A, B, C]);
}

#[test]
fn session_boundary_hands_over_current_set() {
    let mut m = Module::new();
    assert_eq!(m.on_session_ending(0, 1), None);
    assert_eq!(m.next_validators(), None);
    m.add_validator(Origin::Root, A, true).unwrap();
    m.add_validator(Origin::Root, B, true).unwrap();
    assert_eq!(m.next_validators(), Some(vec![A, B]));
    assert_eq!(m.on_session_ending(1, 2), Some(vec![A, B]));
    assert_eq!(m.validators(), vec![A, B]);
    assert!(m.is_validator(A));
    assert!(!m.is_validator(C));
}

#[test]
fn origin_helpers() {
    assert_eq!(Origin::Signed(A).signer(), Some(A));
    assert_eq!(Origin::Root.signer(), None);
    assert_eq!(Origin::Unsigned.signer(), None);
    assert!(Origin::Root.is_root());
    assert!(!Origin::Signed(A).is_root());
}

#[test]
fn votes_of_departed_validators_do_not_count() {
    let mut m = three_validators();
    for v in [A, B, C] {
        m.propose_validator(Origin::Signed(v), D).unwrap();
    }
    m.remove_validator(Origin::Root, C).unwrap();
    m.add_validator(Origin::Root, 5, true).unwrap();
    assert_eq!(m.resolve_add_validator(Origin::Signed(A), D, 3, true), Err(Error::InsufficientVotes));
    assert_eq!(m.on_session_ending(1, 2), Some(vec![A, B, 5]));
    assert_eq!(m.add_votes(D), vec![A, B, C]);
}

#[test]
fn candidate_cannot_vote_on_own_removal() {
    let mut m = three_validators();
    assert_eq!(m.propose_validator_removal(Origin::Signed(C), C), Err(Error::AuthorizationDenied));
    assert!(!m.removal_proposals(C));
    m.propose_validator_removal(Origin::Signed(A), C).unwrap();
    assert_eq!(m.propose_validator_removal(Origin::Signed(C), C), Err(Error::AuthorizationDenied));
    assert_eq!(m.removal_votes(C), vec![A]);
    assert_eq!(m.resolve_remove_validator(Origin::Signed(A), C, 3), Err(Error::InsufficientVotes));
}
