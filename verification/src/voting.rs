//! Answering a `sentinel://vote?id=..&approve=..` request: which vote it
//! asks for, the vote that is submitted for it, and the page shown after.
//! The zero-knowledge proof is made and checked between these steps.

use vstd::prelude::*;
use crate::governance::{accepts, after_vote, GovernanceEngine, GovernanceView, ProposalView, Vote};
use crate::routes::{parse_vote_request, vote_params};
use crate::storage::{hex_encode, hex_lower};
use crate::views::{error_page, error_page_spec, governance_page, governance_page_spec};

verus! {

/// The identity secret this browser votes with: one fixed identity until
/// identities are held in hardware.
pub fn vote_identity_secret() -> (s: [u8; 32])
    ensures
        s@ == Seq::new(32, |i: int| 0x42u8),
{
    let s = [0x42u8; 32];
    assert(s@ =~= Seq::new(32, |i: int| 0x42u8));
    s
}

/// The proposal id and choice a vote request asks for; `None` when its id is
/// 0 (missing or not a number), which names no proposal.
pub fn vote_request(url: &str) -> (r: Option<(u64, bool)>)
    ensures
        r == (if vote_params(url@).0 == 0 {
            None::<(u64, bool)>
        } else {
            Some(vote_params(url@))
        }),
{
    let (id, approve) = parse_vote_request(url);
    if id == 0 {
        None
    } else {
        Some((id, approve))
    }
}

pub open spec fn invalid_vote_page_spec() -> Seq<char> {
    error_page_spec("Vote Error"@, "Invalid proposal ID."@)
}

/// The page for a vote request without a valid proposal id.
pub fn invalid_vote_page() -> (r: String)
    ensures
        r@ == invalid_vote_page_spec(),
{
    error_page("Vote Error", "Invalid proposal ID.")
}

/// The vote submitted for proposal `id`: the identity's nullifier and
/// commitment in lower-case hexadecimal, with the choice and the proof.
pub fn build_vote(id: u64, approve: bool, nullifier: &[u8; 32], commitment: &[u8; 32], proof: Vec<u8>) -> (v: Vote)
    ensures
        v.proposal_id == id,
        v.voter_hash@ == hex_lower(nullifier@),
        v.commitment@ == hex_lower(commitment@),
        v.approve == approve,
        v.proof@ == proof@,
{
    Vote { proposal_id: id, voter_hash: hex_encode(nullifier), commitment: hex_encode(commitment), approve, proof }
}

pub open spec fn refused_vote_page_spec() -> Seq<char> {
    error_page_spec(
        "Governance Error"@,
        "ZK-SNARK proof verification failed. Ensure your identity is valid."@,
    )
}

pub open spec fn proposals_of(g: GovernanceView) -> Seq<ProposalView> {
    g.proposals.map_values(|e: (ProposalView, crate::governance::ProposalStatus)| e.0)
}

/// Casts `vote`, whose proof was checked with outcome `proof_ok`, and
/// answers with the governance page when `accepts` takes it (the timelock
/// starting at the time read from the clock), or with the refusal page,
/// nothing changed, otherwise.
pub fn answer_vote(engine: &mut GovernanceEngine, vote: Vote, proof_ok: bool) -> (r: String)
    ensures
        accepts(old(engine)@, vote@, proof_ok) ==> r@ == governance_page_spec(proposals_of(final(engine)@))
            && exists|now: u64|
            #![trigger after_vote(old(engine)@, vote@, now)]
            final(engine)@ == after_vote(old(engine)@, vote@, now),
        !accepts(old(engine)@, vote@, proof_ok) ==> r@ == refused_vote_page_spec() && final(engine)@ == old(engine)@,
{
    if engine.cast_vote(vote, proof_ok) {
        let proposals = engine.list_proposals();
        let r = governance_page(proposals.as_slice());
        assert(proposals@.map_values(|p: crate::governance::Proposal| p@) =~= proposals_of(engine@));
        r
    } else {
        error_page("Governance Error", "ZK-SNARK proof verification failed. Ensure your identity is valid.")
    }
}

} // verus!
