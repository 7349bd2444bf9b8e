use sentinel::governance::{GovernanceEngine, Proposal, ProposalStatus};
use sentinel::shards::ShardStore;
use sentinel::voting::{answer_vote, build_vote, invalid_vote_page, vote_identity_secret, vote_request};

fn proposal(id: u64) -> Proposal {
    Proposal {
        id,
        title: format!("Proposal {}", id),
        description: "d".to_string(),
        author: "a".to_string(),
        execution_hash: "0x1".to_string(),
        deadline: 5,
    }
}

#[test]
fn shard_files_are_named_in_hex() {
    let store = ShardStore::new("/data/shards".to_string());
    assert_eq!(store.dir(), "/data/shards");
    assert_eq!(store.file_name_for(&[0x00, 0xab, 0x10]), "00ab10");
    assert_eq!(store.file_name_for(&[]), "");
}

#[test]
fn only_hex_named_nonempty_files_are_shards() {
    assert_eq!(ShardStore::shard_from_file("0aFF", vec![1]), Some((vec![0x0a, 0xff], vec![1])));
    assert_eq!(ShardStore::shard_from_file("0aF", vec![1]), None);
    assert_eq!(ShardStore::shard_from_file("zz", vec![1]), None);
    assert_eq!(ShardStore::shard_from_file("00", vec![]), None);
    let files = vec![
        ("01".to_string(), vec![9, 9]),
        ("notes.txt".to_string(), vec![1]),
        ("02".to_string(), vec![]),
        ("".to_string(), vec![5]),
        ("ff".to_string(), vec![7]),
    ];
    assert_eq!(
        ShardStore::shards_from_files(&files),
        vec![(vec![0x01], vec![9, 9]), (vec![], vec![5]), (vec![0xff], vec![7])]
    );
}

#[test]
fn vote_requests_name_a_proposal() {
    assert_eq!(vote_request("sentinel://vote?id=2&approve=false"), Some((2, false)));
    assert_eq!(vote_request("sentinel://vote?id=7"), Some((7, true)));
    assert_eq!(vote_request("sentinel://vote?approve=true"), None);
    assert_eq!(vote_request("sentinel://vote?id=abc"), None);
    assert!(invalid_vote_page().contains("Invalid proposal ID."));
    assert_eq!(vote_identity_secret(), [0x42u8; 32]);
}

#[test]
fn votes_carry_hex_identities() {
    let v = build_vote(3, false, &[0xab; 32], &[0x01; 32], vec![4, 5]);
    assert_eq!(v.proposal_id, 3);
    assert_eq!(v.voter_hash, "ab".repeat(32));
    assert_eq!(v.commitment, "01".repeat(32));
    assert!(!v.approve);
    assert_eq!(v.proof, vec![4, 5]);
}

#[test]
fn answered_votes_show_governance_or_refusal() {
    let mut engine = GovernanceEngine::new();
    engine.submit_proposal(proposal(1));
    let v = build_vote(1, true, &[0x11; 32], &[0x22; 32], vec![]);
    let refused = answer_vote(&mut engine, v.clone(), false);
    assert!(refused.contains("ZK-SNARK proof verification failed."));
    assert_eq!(engine.vote_count(), 0);
    assert_eq!(engine.status_of(1), Some(ProposalStatus::Active));
    let taken = answer_vote(&mut engine, v.clone(), true);
    assert!(taken.contains("Proposal 1"));
    assert_eq!(engine.vote_count(), 1);
    assert!(matches!(engine.status_of(1), Some(ProposalStatus::Timelocked { .. })));
    let again = answer_vote(&mut engine, v, true);
    assert!(again.contains("ZK-SNARK proof verification failed."));
}

#[test]
fn written_shards_load_back_under_their_key() {
    let store = ShardStore::new("shards".to_string());
    for key in [vec![], vec![0u8], vec![0xde, 0xad, 0xbe, 0xef], (0u8..=255).collect::<Vec<u8>>()] {
        let name = store.file_name_for(&key);
        assert_eq!(ShardStore::shard_from_file(&name, vec![1, 2]), Some((key.clone(), vec![1, 2])));
    }
}
