use sentinel::governance::{nullifier_of, GovernanceEngine, Proposal, ProposalStatus, Vote, ZkIdentity, TIMELOCK_SECS};
use sentinel::identity::{identity_vote, poseidon_ark, poseidon_mds};

fn proposal(id: u64, title: &str, hash: &str) -> Proposal {
    Proposal {
        id,
        title: title.to_string(),
        description: "Description".to_string(),
        author: "Author".to_string(),
        execution_hash: hash.to_string(),
        deadline: 1000,
    }
}

fn vote(id: u64, nullifier_hex: &str) -> Vote {
    Vote {
        proposal_id: id,
        voter_hash: nullifier_hex.to_string(),
        commitment: "ab".repeat(32),
        approve: true,
        proof: vec![1, 2, 3],
    }
}

#[test]
fn test_zk_identity_generation() {
    let id = ZkIdentity::new();
    assert_ne!(id.commitment, [0u8; 32]);
    assert_ne!(id.secret, [0u8; 32]);
}

#[test]
fn test_nullifier_derivation() {
    let id = ZkIdentity::new();
    let n1 = id.derive_nullifier(1);
    let n2 = id.derive_nullifier(2);
    let n1_again = id.derive_nullifier(1);

    assert_ne!(n1, n2);
    assert_eq!(n1, n1_again);
}

#[test]
fn test_governance_voting_flow() {
    let mut engine = GovernanceEngine::new();
    engine.submit_proposal(proposal(1, "Test Proposal", "0x123"));
    let proposals = engine.list_proposals();
    assert_eq!(proposals.len(), 1);
    assert_eq!(proposals[0].id, 1);

    let id = ZkIdentity::new();
    let nullifier = id.derive_nullifier(1);
    // The zero-knowledge proof is checked outside the engine; its verdict is
    // handed in.
    let v = Vote {
        proposal_id: 1,
        voter_hash: hex::encode(nullifier),
        commitment: hex::encode(id.commitment),
        approve: true,
        proof: vec![1, 2, 3],
    };

    // First vote (proof checked out) should succeed
    assert!(engine.cast_vote(v.clone(), true));

    // Second vote with same nullifier should fail
    assert!(!engine.cast_vote(v, true));

    // Vote for non-existent proposal should fail
    let id2 = ZkIdentity::new();
    let invalid_vote = Vote {
        proposal_id: 99,
        voter_hash: hex::encode(id2.derive_nullifier(99)),
        commitment: hex::encode(id2.commitment),
        approve: true,
        proof: vec![1, 2, 3],
    };
    assert!(!engine.cast_vote(invalid_vote, true));
}

#[test]
fn identities_are_functions_of_their_secret() {
    let a = ZkIdentity::from_secret([7u8; 32]);
    let b = ZkIdentity::from_secret([7u8; 32]);
    let c = ZkIdentity::from_secret([8u8; 32]);
    assert_eq!(a.commitment, b.commitment);
    assert_ne!(a.commitment, c.commitment);
    assert_eq!(a.secret, [7u8; 32]);
    assert_eq!(a.nullifier_hash, [0u8; 32]);
    assert!(!a.use_gpu);
    assert_eq!(a.derive_nullifier(3), b.derive_nullifier(3));
    assert_ne!(a.derive_nullifier(3), c.derive_nullifier(3));
    assert_ne!(a.derive_nullifier(3), a.commitment);
    assert_eq!(poseidon_ark().len(), 65);
    assert_eq!(poseidon_ark()[2], (2000, 2001));
    assert_eq!(poseidon_mds(), vec![(1, 2), (2, 1)]);
}

#[test]
fn an_identity_votes_once_per_proposal() {
    let mut engine = GovernanceEngine::new();
    engine.submit_proposal(proposal(4, "P", "h"));
    engine.submit_proposal(proposal(5, "Q", "h"));
    let id = ZkIdentity::from_secret([0x42u8; 32]);
    let first = identity_vote(&id, 4, true, vec![9]);
    assert_eq!(first.voter_hash, hex::encode(id.derive_nullifier(4)));
    assert_eq!(first.commitment, hex::encode(id.commitment));
    assert_eq!(nullifier_of(&first.voter_hash), id.derive_nullifier(4));
    assert!(engine.cast_vote_at(first, true, 10));
    // The same identity again, with the other choice and another proof.
    assert!(!engine.cast_vote_at(identity_vote(&id, 4, false, vec![1, 2]), true, 11));
    // The same identity on another proposal is a new vote.
    assert!(engine.cast_vote_at(identity_vote(&id, 5, true, vec![9]), true, 12));
}

#[test]
fn test_timelock_queueing() {
    let mut engine = GovernanceEngine::new();
    engine.submit_proposal(proposal(1, "Timelock Test", "0xabc"));
    engine.queue_execution(1);
    assert!(matches!(engine.status_of(1), Some(ProposalStatus::Timelocked { .. })));
}

#[test]
fn test_proposal_execution() {
    let mut engine = GovernanceEngine::new();
    engine.submit_proposal(proposal(1, "Execution Test", "0xdeadbeef"));

    // 1. Cannot execute if not timelocked
    assert!(engine.execute_proposal(1).is_err());

    // 2. Manually set timelock to the past
    let now = std::time::SystemTime::now()
        .duration_since(std::time::UNIX_EPOCH)
        .unwrap()
        .as_secs();
    let past_time = now - 100;
    engine.set_status(1, ProposalStatus::Timelocked { release_time: past_time });

    // 3. Should execute successfully now
    let res = engine.execute_proposal(1);
    assert!(res.is_ok());
    assert_eq!(res.unwrap(), "0xdeadbeef");

    // 4. Status should be Executed
    assert_eq!(engine.status_of(1), Some(ProposalStatus::Executed));

    // 5. Cannot execute twice
    assert!(engine.execute_proposal(1).is_err());
}

#[test]
fn vote_with_bad_proof_changes_nothing() {
    let mut engine = GovernanceEngine::new();
    engine.submit_proposal(proposal(7, "P", "h"));
    assert!(!engine.cast_vote_at(vote(7, &"aa".repeat(32)), false, 10));
    assert_eq!(engine.status_of(7), Some(ProposalStatus::Active));
    assert_eq!(engine.vote_count(), 0);
    // The same nullifier is still free afterwards.
    assert!(engine.cast_vote_at(vote(7, &"aa".repeat(32)), true, 10));
    assert_eq!(engine.vote_count(), 1);
}

#[test]
fn accepted_vote_starts_the_timelock() {
    let mut engine = GovernanceEngine::new();
    engine.submit_proposal(proposal(3, "P", "0xfeed"));
    assert!(engine.cast_vote_at(vote(3, &"01".repeat(32)), true, 5_000));
    assert_eq!(engine.status_of(3), Some(ProposalStatus::Timelocked { release_time: 5_000 + TIMELOCK_SECS }));
    // Not before the timelock ends ...
    let early = engine.execute_proposal_at(3, 5_000 + TIMELOCK_SECS - 1);
    assert_eq!(early, Err("Proposal #3 is still timelocked. 1s remaining.".to_string()));
    // ... but from then on, once.
    assert_eq!(engine.execute_proposal_at(3, 5_000 + TIMELOCK_SECS), Ok("0xfeed".to_string()));
    assert_eq!(
        engine.execute_proposal_at(3, 5_000 + TIMELOCK_SECS + 1),
        Err("Proposal is not in Timelocked state".to_string())
    );
    assert_eq!(engine.execute_proposal_at(42, 0), Err("Proposal not found".to_string()));
}

#[test]
fn invalid_hex_votes_share_the_zero_nullifier() {
    assert_eq!(nullifier_of("zz"), [0u8; 32]);
    assert_eq!(nullifier_of("0102"), [0u8; 32]);
    let mut expected = [0u8; 32];
    expected[0] = 0xab;
    expected[31] = 0x01;
    let hex = format!("ab{}01", "00".repeat(30));
    assert_eq!(nullifier_of(&hex), expected);
    assert_eq!(nullifier_of(&hex.to_uppercase()), expected);

    let mut engine = GovernanceEngine::new();
    engine.submit_proposal(proposal(1, "A", "a"));
    engine.submit_proposal(proposal(2, "B", "b"));
    assert!(engine.cast_vote_at(vote(1, "not hex"), true, 0));
    assert!(!engine.cast_vote_at(vote(2, "also not hex"), true, 0));
}

#[test]
fn late_clock_saturates_the_release_time() {
    let mut engine = GovernanceEngine::new();
    engine.submit_proposal(proposal(5, "P", "h"));
    assert!(engine.cast_vote_at(vote(5, &"02".repeat(32)), true, u64::MAX - 1));
    assert_eq!(engine.status_of(5), Some(ProposalStatus::Timelocked { release_time: u64::MAX }));
    engine.queue_execution_at(5, 7);
    assert_eq!(engine.status_of(5), Some(ProposalStatus::Timelocked { release_time: 7 + TIMELOCK_SECS }));
}
