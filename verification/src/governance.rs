//! On-chain-style governance: proposals, anonymous votes guarded by
//! nullifiers, a 48-hour timelock and execution.
//!
//! The zero-knowledge side (identities, proofs and their verification)
//! works on field elements of an outside crate; the engine here takes the
//! verdict on a vote's proof as an argument and decides everything else.

use vstd::prelude::*;
use vstd::utf8::encode_utf8;
use crate::clock::now_unix_secs;
use crate::codec::hex_value;
use crate::text::{decimal, push_decimal, push_str};

verus! {

/// A governance proposal.
#[derive(Debug, Clone)]
pub struct Proposal {
    pub id: u64,
    pub title: String,
    pub description: String,
    /// The author's public key.
    pub author: String,
    /// Hash of the code or configuration to apply.
    pub execution_hash: String,
    pub deadline: u64,
}

/// The mathematical form of a proposal.
pub struct ProposalView {
    pub id: u64,
    pub title: Seq<char>,
    pub description: Seq<char>,
    pub author: Seq<char>,
    pub execution_hash: Seq<char>,
    pub deadline: u64,
}

impl View for Proposal {
    type V = ProposalView;

    open spec fn view(&self) -> ProposalView {
        ProposalView {
            id: self.id,
            title: self.title@,
            description: self.description@,
            author: self.author@,
            execution_hash: self.execution_hash@,
            deadline: self.deadline,
        }
    }
}

/// An anonymous vote.
#[derive(Debug, Clone)]
pub struct Vote {
    pub proposal_id: u64,
    /// The identity's nullifier for this proposal, in hexadecimal.
    pub voter_hash: String,
    /// The identity commitment, in hexadecimal.
    pub commitment: String,
    pub approve: bool,
    /// The serialized zero-knowledge proof.
    pub proof: Vec<u8>,
}

/// The mathematical form of a vote.
pub struct VoteView {
    pub proposal_id: u64,
    pub voter_hash: Seq<char>,
    pub commitment: Seq<char>,
    pub approve: bool,
    pub proof: Seq<u8>,
}

impl View for Vote {
    type V = VoteView;

    open spec fn view(&self) -> VoteView {
        VoteView {
            proposal_id: self.proposal_id,
            voter_hash: self.voter_hash@,
            commitment: self.commitment@,
            approve: self.approve,
            proof: self.proof@,
        }
    }
}

/// A voter's identity: a secret and the public commitment to it.
#[derive(Debug, Clone)]
pub struct ZkIdentity {
    pub commitment: [u8; 32],
    pub nullifier_hash: [u8; 32],
    pub secret: [u8; 32],
    pub use_gpu: bool,
}

/// Where a proposal stands.
#[derive(Debug, Clone, Copy, PartialEq, Eq, Structural)]
pub enum ProposalStatus {
    Pending,
    Active,
    Passed,
    Failed,
    Executed,
    Timelocked { release_time: u64 },
}

/// Seconds between a proposal passing and its earliest execution (48 h).
pub const TIMELOCK_SECS: u64 = 172800;

/// The governance state: proposals with their status, the accepted votes
/// and the nullifiers already used.
pub struct GovernanceEngine {
    proposals: Vec<(Proposal, ProposalStatus)>,
    votes: Vec<Vote>,
    nullifiers: Vec<[u8; 32]>,
}

/// The mathematical form of the governance state.
pub struct GovernanceView {
    pub proposals: Seq<(ProposalView, ProposalStatus)>,
    pub votes: Seq<VoteView>,
    pub nullifiers: Seq<Seq<u8>>,
}

impl View for GovernanceEngine {
    type V = GovernanceView;

    closed spec fn view(&self) -> GovernanceView {
        GovernanceView {
            proposals: self.proposals@.map_values(|e: (Proposal, ProposalStatus)| (e.0@, e.1)),
            votes: self.votes@.map_values(|v: Vote| v@),
            nullifiers: self.nullifiers@.map_values(|n: [u8; 32]| n@),
        }
    }
}

/// The first position at or after `from` whose proposal has id `id`.
pub open spec fn first_with_id(ps: Seq<(ProposalView, ProposalStatus)>, id: u64, from: int) -> Option<int>
    decreases ps.len() - from,
{
    if from < 0 || from >= ps.len() {
        None
    } else if ps[from].0.id == id {
        Some(from)
    } else {
        first_with_id(ps, id, from + 1)
    }
}

/// Some proposal with id `id` is active.
pub open spec fn is_active(ps: Seq<(ProposalView, ProposalStatus)>, id: u64) -> bool {
    exists|i: int| 0 <= i < ps.len() && ps[i].0.id == id && ps[i].1 == ProposalStatus::Active
}

/// The value of a string of hexadecimal digit pairs, if it is one.
pub open spec fn hex_decode_spec(b: Seq<u8>) -> Option<Seq<u8>>
    decreases b.len(),
{
    if b.len() == 0 {
        Some(seq![])
    } else if b.len() == 1 {
        None
    } else {
        match (hex_value(b[0]), hex_value(b[1]), hex_decode_spec(b.subrange(2, b.len() as int))) {
            (Some(h), Some(l), Some(rest)) => Some(seq![(h * 16 + l) as u8] + rest),
            _ => None,
        }
    }
}

/// Thirty-two zero bytes.
pub open spec fn zero_nullifier() -> Seq<u8> {
    Seq::new(32, |i: int| 0u8)
}

/// The nullifier a vote is recorded under: its hexadecimal `voter_hash`
/// decoded when that gives exactly 32 bytes, else 32 zero bytes.
pub open spec fn recorded_nullifier(voter_hash: Seq<char>) -> Seq<u8> {
    match hex_decode_spec(encode_utf8(voter_hash)) {
        Some(b) => if b.len() == 32 { b } else { zero_nullifier() },
        None => zero_nullifier(),
    }
}

/// The end of a timelock started at `now`: `TIMELOCK_SECS` later, or the
/// last representable second when that would not fit in 64 bits.
pub open spec fn release_after(now: u64) -> u64 {
    if now <= u64::MAX - TIMELOCK_SECS { (now + TIMELOCK_SECS) as u64 } else { u64::MAX }
}

/// The proposals after the first one with id `id` is put under the
/// timelock started at `now` (see `release_after`).
pub open spec fn queued(ps: Seq<(ProposalView, ProposalStatus)>, id: u64, now: u64) -> Seq<(ProposalView, ProposalStatus)> {
    match first_with_id(ps, id, 0) {
        Some(i) => ps.update(i, (ps[i].0, ProposalStatus::Timelocked { release_time: release_after(now) })),
        None => ps,
    }
}

/// A vote is accepted when its proposal is active, its nullifier is unused
/// and its proof checks out.
pub open spec fn accepts(g: GovernanceView, v: VoteView, proof_ok: bool) -> bool {
    &&& is_active(g.proposals, v.proposal_id)
    &&& !g.nullifiers.contains(recorded_nullifier(v.voter_hash))
    &&& proof_ok
}

/// The state after an accepted vote: nullifier used, vote kept, proposal
/// queued for execution.
pub open spec fn after_vote(g: GovernanceView, v: VoteView, now: u64) -> GovernanceView {
    GovernanceView {
        proposals: queued(g.proposals, v.proposal_id, now),
        votes: g.votes.push(v),
        nullifiers: g.nullifiers.push(recorded_nullifier(v.voter_hash)),
    }
}

/// The message for a proposal still under its timelock.
pub open spec fn timelocked_message(id: u64, remaining: u64) -> Seq<char> {
    "Proposal #"@ + decimal(id as nat) + " is still timelocked. "@ + decimal(remaining as nat) + "s remaining."@
}

/// What executing proposal `id` at time `now` gives: the new state and
/// either the execution hash or the error text.
pub open spec fn execution(g: GovernanceView, id: u64, now: u64) -> (GovernanceView, Result<Seq<char>, Seq<char>>) {
    match first_with_id(g.proposals, id, 0) {
        None => (g, Err("Proposal not found"@)),
        Some(i) => match g.proposals[i].1 {
            ProposalStatus::Timelocked { release_time } => if now >= release_time {
                (
                    GovernanceView {
                        proposals: g.proposals.update(i, (g.proposals[i].0, ProposalStatus::Executed)),
                        ..g
                    },
                    Ok(g.proposals[i].0.execution_hash),
                )
            } else {
                (g, Err(timelocked_message(id, (release_time - now) as u64)))
            },
            _ => (g, Err("Proposal is not in Timelocked state"@)),
        },
    }
}

/// Double voting is impossible: once a vote is accepted, no vote recorded
/// under the same nullifier is accepted afterwards, whatever its proof.
pub proof fn lemma_nullifier_spent(g: GovernanceView, v: VoteView, proof_ok: bool, now: u64, v2: VoteView, proof_ok2: bool)
    requires
        accepts(g, v, proof_ok),
        recorded_nullifier(v2.voter_hash) == recorded_nullifier(v.voter_hash),
    ensures
        !accepts(after_vote(g, v, now), v2, proof_ok2),
{
    let ns = after_vote(g, v, now).nullifiers;
    assert(ns[ns.len() - 1] == recorded_nullifier(v.voter_hash));
}

/// Whether a vote is taken does not depend on its choice: a "no" vote is
/// taken exactly when the same vote saying "yes" would be, and any vote on
/// an active proposal whose nullifier is unused and whose proof checks is
/// taken.
pub proof fn lemma_vote_choice_is_free(g: GovernanceView, v: VoteView, proof_ok: bool)
    ensures
        accepts(g, v, proof_ok) == accepts(g, VoteView { approve: !v.approve, ..v }, proof_ok),
        is_active(g.proposals, v.proposal_id) && !g.nullifiers.contains(recorded_nullifier(v.voter_hash))
            ==> accepts(g, v, true),
        accepts(g, v, proof_ok) ==> proof_ok,
{
}

/// A vote that is taken is kept: the votes grow by exactly that vote, and
/// its nullifier joins the used ones, the earlier ones kept in order.
pub proof fn lemma_taken_vote_recorded(g: GovernanceView, v: VoteView, now: u64)
    ensures
        after_vote(g, v, now).votes.len() == g.votes.len() + 1,
        after_vote(g, v, now).votes.last() == v,
        after_vote(g, v, now).votes.drop_last() == g.votes,
        after_vote(g, v, now).nullifiers.len() == g.nullifiers.len() + 1,
        after_vote(g, v, now).nullifiers.last() == recorded_nullifier(v.voter_hash),
        after_vote(g, v, now).nullifiers.drop_last() == g.nullifiers,
        after_vote(g, v, now).proposals.len() == g.proposals.len(),
{
    assert(after_vote(g, v, now).votes.drop_last() =~= g.votes);
    assert(after_vote(g, v, now).nullifiers.drop_last() =~= g.nullifiers);
    lemma_first_with_id_bounds(g.proposals, v.proposal_id, 0);
}

/// Only votes on an open proposal are taken: a vote on a proposal that was
/// never submitted, or is no longer active, is refused whatever its proof.
pub proof fn lemma_vote_needs_active_proposal(g: GovernanceView, v: VoteView, proof_ok: bool)
    requires
        !is_active(g.proposals, v.proposal_id),
    ensures
        !accepts(g, v, proof_ok),
{
}

/// A used nullifier stays used: accepting a vote and executing a proposal
/// both keep every nullifier already spent.
pub proof fn lemma_nullifiers_persist(g: GovernanceView, n: Seq<u8>, v: VoteView, now: u64, id: u64, t: u64)
    requires
        g.nullifiers.contains(n),
    ensures
        after_vote(g, v, now).nullifiers.contains(n),
        execution(g, id, t).0.nullifiers.contains(n),
{
    let i = choose|i: int| 0 <= i < g.nullifiers.len() && g.nullifiers[i] == n;
    assert(after_vote(g, v, now).nullifiers[i] == n);
}

proof fn lemma_first_with_id_found(ps: Seq<(ProposalView, ProposalStatus)>, id: u64, from: int, i: int)
    requires
        0 <= from <= i < ps.len(),
        ps[i].0.id == id,
    ensures
        first_with_id(ps, id, from) is Some,
        0 <= first_with_id(ps, id, from)->0 < ps.len(),
        ps[first_with_id(ps, id, from)->0].0.id == id,
    decreases i - from,
{
    if ps[from].0.id != id {
        lemma_first_with_id_found(ps, id, from + 1, i);
    }
}

proof fn lemma_first_with_id_bounds(ps: Seq<(ProposalView, ProposalStatus)>, id: u64, from: int)
    ensures
        first_with_id(ps, id, from) is Some ==> {
            let k = first_with_id(ps, id, from)->0;
            from <= k < ps.len() && ps[k].0.id == id
        },
    decreases ps.len() - from,
{
    if 0 <= from < ps.len() && ps[from].0.id != id {
        lemma_first_with_id_bounds(ps, id, from + 1);
    }
}

proof fn lemma_first_with_id_same_ids(ps: Seq<(ProposalView, ProposalStatus)>, qs: Seq<(ProposalView, ProposalStatus)>, id: u64, from: int)
    requires
        ps.len() == qs.len(),
        forall|j: int| 0 <= j < ps.len() ==> ps[j].0.id == qs[j].0.id,
    ensures
        first_with_id(ps, id, from) == first_with_id(qs, id, from),
    decreases ps.len() - from,
{
    if 0 <= from < ps.len() && ps[from].0.id != id {
        lemma_first_with_id_same_ids(ps, qs, id, from + 1);
    }
}

/// An accepted vote puts its proposal under the timelock started at the
/// vote, which ends `TIMELOCK_SECS` later (see `release_after`).
pub proof fn lemma_vote_starts_timelock(g: GovernanceView, v: VoteView, proof_ok: bool, now: u64)
    requires
        accepts(g, v, proof_ok),
    ensures
        ({
            let ps = after_vote(g, v, now).proposals;
            let k = first_with_id(ps, v.proposal_id, 0);
            k is Some && ps[k->0].1 == (ProposalStatus::Timelocked { release_time: release_after(now) })
        }),
        now <= u64::MAX - TIMELOCK_SECS ==> release_after(now) == now + TIMELOCK_SECS,
{
    let ps = g.proposals;
    let i = choose|i: int| 0 <= i < ps.len() && ps[i].0.id == v.proposal_id && ps[i].1 == ProposalStatus::Active;
    lemma_first_with_id_found(ps, v.proposal_id, 0, i);
    let k = first_with_id(ps, v.proposal_id, 0)->0;
    let qs = after_vote(g, v, now).proposals;
    assert forall|j: int| 0 <= j < ps.len() implies ps[j].0.id == qs[j].0.id by {}
    lemma_first_with_id_same_ids(ps, qs, v.proposal_id, 0);
}

/// A queued proposal can be executed exactly from the end of its timelock
/// on: executing it at `t1` after queueing it at `t0` succeeds if and only
/// if `t1 >= t0 + TIMELOCK_SECS`.
pub proof fn lemma_timelock_window(g: GovernanceView, id: u64, t0: u64, t1: u64)
    requires
        first_with_id(g.proposals, id, 0) is Some,
        t0 <= u64::MAX - TIMELOCK_SECS,
    ensures
        execution(GovernanceView { proposals: queued(g.proposals, id, t0), ..g }, id, t1).1 is Ok
            <==> t1 >= t0 + TIMELOCK_SECS,
{
    let ps = g.proposals;
    let qs = queued(ps, id, t0);
    lemma_first_with_id_bounds(ps, id, 0);
    assert forall|j: int| 0 <= j < ps.len() implies ps[j].0.id == qs[j].0.id by {}
    lemma_first_with_id_same_ids(ps, qs, id, 0);
}

/// A proposal is executed at most once: after a successful execution, a
/// second execution of the same id fails, at any time.
pub proof fn lemma_execute_once(g: GovernanceView, id: u64, t1: u64, t2: u64)
    requires
        execution(g, id, t1).1 is Ok,
    ensures
        execution(execution(g, id, t1).0, id, t2).1 is Err,
{
    let ps = g.proposals;
    let qs = execution(g, id, t1).0.proposals;
    lemma_first_with_id_bounds(ps, id, 0);
    assert forall|j: int| 0 <= j < ps.len() implies ps[j].0.id == qs[j].0.id by {}
    lemma_first_with_id_same_ids(ps, qs, id, 0);
}

/// An execution that is refused leaves the state unchanged.
pub proof fn lemma_refused_execution_changes_nothing(g: GovernanceView, id: u64, t: u64)
    requires
        execution(g, id, t).1 is Err,
    ensures
        execution(g, id, t).0 == g,
{
}

/// `hex::decode`: the bytes named by pairs of hexadecimal digits (either
/// case), or `None` for an odd length or a character that is no such digit.
#[verifier::external_body]
pub(crate) fn hex_decode(s: &str) -> (r: Option<Vec<u8>>)
    ensures
        match r {
            Some(b) => hex_decode_spec(encode_utf8(s@)) == Some(b@),
            None => hex_decode_spec(encode_utf8(s@)) is None,
        },
{
    hex::decode(s).ok()
}

/// A copy of a proposal.
pub fn copy_proposal(p: &Proposal) -> (r: Proposal)
    ensures
        r@ == p@,
{
    Proposal {
        id: p.id,
        title: p.title.clone(),
        description: p.description.clone(),
        author: p.author.clone(),
        execution_hash: p.execution_hash.clone(),
        deadline: p.deadline,
    }
}

fn same_bytes(a: &[u8; 32], b: &[u8; 32]) -> (r: bool)
    ensures
        r == (a@ == b@),
{
    let mut i: usize = 0;
    while i < 32
        invariant
            i <= 32,
            a@.len() == 32,
            b@.len() == 32,
            forall|j: int| 0 <= j < i ==> a@[j] == b@[j],
        decreases 32 - i,
    {
        if a[i] != b[i] {
            assert(a@[i as int] != b@[i as int]);
            return false;
        }
        i += 1;
    }
    assert(a@ =~= b@);
    true
}

/// The nullifier bytes a vote is recorded under (see `recorded_nullifier`).
pub fn nullifier_of(voter_hash: &str) -> (n: [u8; 32])
    ensures
        n@ == recorded_nullifier(voter_hash@),
{
    let mut out: [u8; 32] = [0u8; 32];
    assert(out@ =~= zero_nullifier());
    match hex_decode(voter_hash) {
        Some(b) => {
            if b.len() == 32 {
                let mut i: usize = 0;
                while i < 32
                    invariant
                        i <= 32,
                        b@.len() == 32,
                        out@.len() == 32,
                        forall|j: int| 0 <= j < i ==> out@[j] == b@[j],
                    decreases 32 - i,
                {
                    out[i] = b[i];
                    i += 1;
                }
                assert(out@ =~= b@);
            }
            out
        },
        None => out,
    }
}

impl GovernanceEngine {
    /// An engine with no proposals, votes or used nullifiers.
    pub fn new() -> (g: Self)
        ensures
            g@.proposals == Seq::<(ProposalView, ProposalStatus)>::empty(),
            g@.votes == Seq::<VoteView>::empty(),
            g@.nullifiers == Seq::<Seq<u8>>::empty(),
    {
        let g = GovernanceEngine { proposals: Vec::new(), votes: Vec::new(), nullifiers: Vec::new() };
        assert(g@.proposals =~= Seq::<(ProposalView, ProposalStatus)>::empty());
        assert(g@.votes =~= Seq::<VoteView>::empty());
        assert(g@.nullifiers =~= Seq::<Seq<u8>>::empty());
        g
    }

    /// Adds a proposal, open for votes.
    pub fn submit_proposal(&mut self, proposal: Proposal)
        ensures
            final(self)@.proposals == old(self)@.proposals.push((proposal@, ProposalStatus::Active)),
            final(self)@.votes == old(self)@.votes,
            final(self)@.nullifiers == old(self)@.nullifiers,
    {
        let ghost p = proposal@;
        self.proposals.push((proposal, ProposalStatus::Active));
        assert(self@.proposals =~= old(self)@.proposals.push((p, ProposalStatus::Active)));
        assert(self@.votes =~= old(self)@.votes);
        assert(self@.nullifiers =~= old(self)@.nullifiers);
    }

    fn position_of(&self, id: u64) -> (r: Option<usize>)
        ensures
            match r {
                Some(i) => first_with_id(self@.proposals, id, 0) == Some(i as int) && i < self.proposals.len(),
                None => first_with_id(self@.proposals, id, 0) is None,
            },
    {
        let ghost ps = self@.proposals;
        let mut i: usize = 0;
        while i < self.proposals.len()
            invariant
                i <= self.proposals@.len(),
                ps == self@.proposals,
                ps.len() == self.proposals@.len(),
                first_with_id(ps, id, 0) == first_with_id(ps, id, i as int),
            decreases self.proposals@.len() - i,
        {
            assert(ps[i as int].0.id == self.proposals@[i as int].0.id);
            if self.proposals[i].0.id == id {
                return Some(i);
            }
            i += 1;
        }
        None
    }

    fn set_status_at(&mut self, i: usize, status: ProposalStatus)
        requires
            i < old(self).proposals.len(),
        ensures
            final(self)@.proposals == old(self)@.proposals.update(i as int, (old(self)@.proposals[i as int].0, status)),
            final(self)@.votes == old(self)@.votes,
            final(self)@.nullifiers == old(self)@.nullifiers,
    {
        let p = copy_proposal(&self.proposals[i].0);
        self.proposals.set(i, (p, status));
        assert(self@.proposals =~= old(self)@.proposals.update(i as int, (old(self)@.proposals[i as int].0, status)));
        assert(self@.votes =~= old(self)@.votes);
        assert(self@.nullifiers =~= old(self)@.nullifiers);
    }

    /// Puts the first proposal with id `proposal_id` under the timelock
    /// started at `now` (see `release_after`); nothing happens when there is
    /// none.
    pub fn queue_execution_at(&mut self, proposal_id: u64, now: u64)
        ensures
            final(self)@.proposals == queued(old(self)@.proposals, proposal_id, now),
            final(self)@.votes == old(self)@.votes,
            final(self)@.nullifiers == old(self)@.nullifiers,
    {
        match self.position_of(proposal_id) {
            Some(i) => {
                self.set_status_at(i, ProposalStatus::Timelocked { release_time: now.saturating_add(TIMELOCK_SECS) });
            },
            None => {},
        }
    }

    /// `queue_execution_at` at the current time, read from the clock.
    pub fn queue_execution(&mut self, proposal_id: u64)
        ensures
            exists|now: u64|
                #![trigger queued(old(self)@.proposals, proposal_id, now)]
                final(self)@.proposals == queued(old(self)@.proposals, proposal_id, now),
            final(self)@.votes == old(self)@.votes,
            final(self)@.nullifiers == old(self)@.nullifiers,
    {
        let now = now_unix_secs();
        self.queue_execution_at(proposal_id, now);
    }

    fn nullifier_used(&self, n: &[u8; 32]) -> (r: bool)
        ensures
            r == self@.nullifiers.contains(n@),
    {
        let mut i: usize = 0;
        while i < self.nullifiers.len()
            invariant
                i <= self.nullifiers@.len(),
                self@.nullifiers.len() == self.nullifiers@.len(),
                forall|j: int| 0 <= j < i ==> self@.nullifiers[j] != n@,
            decreases self.nullifiers@.len() - i,
        {
            assert(self@.nullifiers[i as int] == self.nullifiers@[i as int]@);
            if same_bytes(&self.nullifiers[i], n) {
                assert(self@.nullifiers[i as int] == n@);
                return true;
            }
            i += 1;
        }
        false
    }

    fn any_active(&self, id: u64) -> (r: bool)
        ensures
            r == is_active(self@.proposals, id),
    {
        let ghost ps = self@.proposals;
        let mut i: usize = 0;
        while i < self.proposals.len()
            invariant
                i <= self.proposals@.len(),
                ps == self@.proposals,
                ps.len() == self.proposals@.len(),
                forall|j: int| 0 <= j < i ==> !(ps[j].0.id == id && ps[j].1 == ProposalStatus::Active),
            decreases self.proposals@.len() - i,
        {
            assert(ps[i as int].0.id == self.proposals@[i as int].0.id);
            assert(ps[i as int].1 == self.proposals@[i as int].1);
            if self.proposals[i].0.id == id && self.proposals[i].1 == ProposalStatus::Active {
                return true;
            }
            i += 1;
        }
        false
    }

    /// Records a vote whose proof was checked with outcome `proof_ok`, at
    /// time `now`. The vote is taken (and `true` returned) exactly when
    /// `accepts` holds; it then uses its nullifier and queues its proposal
    /// (see `after_vote`). A refused vote changes nothing.
    pub fn cast_vote_at(&mut self, vote: Vote, proof_ok: bool, now: u64) -> (ok: bool)
        ensures
            ok == accepts(old(self)@, vote@, proof_ok),
            ok ==> final(self)@ == after_vote(old(self)@, vote@, now),
            !ok ==> final(self)@ == old(self)@,
    {
        if !self.any_active(vote.proposal_id) {
            return false;
        }
        let n = nullifier_of(vote.voter_hash.as_str());
        if self.nullifier_used(&n) {
            return false;
        }
        if !proof_ok {
            return false;
        }
        let ghost v = vote@;
        let ghost before = self@;
        let proposal_id = vote.proposal_id;
        self.nullifiers.push(n);
        self.votes.push(vote);
        assert(self@.nullifiers =~= before.nullifiers.push(recorded_nullifier(v.voter_hash)));
        assert(self@.votes =~= before.votes.push(v));
        assert(self@.proposals =~= before.proposals);
        self.queue_execution_at(proposal_id, now);
        true
    }

    /// `cast_vote_at` at the current time, read from the clock: the vote is
    /// taken exactly when `accepts` holds, and the timelock then starts at
    /// the time read.
    pub fn cast_vote(&mut self, vote: Vote, proof_ok: bool) -> (ok: bool)
        ensures
            ok == accepts(old(self)@, vote@, proof_ok),
            ok ==> exists|now: u64|
                #![trigger after_vote(old(self)@, vote@, now)]
                final(self)@ == after_vote(old(self)@, vote@, now),
            !ok ==> final(self)@ == old(self)@,
    {
        let now = now_unix_secs();
        self.cast_vote_at(vote, proof_ok, now)
    }

    /// Executes proposal `proposal_id` at time `now` (see `execution`): the
    /// first proposal with that id, once its timelock has ended, becomes
    /// executed and its execution hash is returned.
    pub fn execute_proposal_at(&mut self, proposal_id: u64, now: u64) -> (r: Result<String, String>)
        ensures
            final(self)@ == execution(old(self)@, proposal_id, now).0,
            match r {
                Ok(h) => execution(old(self)@, proposal_id, now).1 == Ok::<Seq<char>, Seq<char>>(h@),
                Err(e) => execution(old(self)@, proposal_id, now).1 == Err::<Seq<char>, Seq<char>>(e@),
            },
    {
        match self.position_of(proposal_id) {
            None => Err(String::from_str("Proposal not found")),
            Some(i) => {
                let status = self.proposals[i].1;
                match status {
                    ProposalStatus::Timelocked { release_time } => {
                        if now >= release_time {
                            let h = self.proposals[i].0.execution_hash.clone();
                            self.set_status_at(i, ProposalStatus::Executed);
                            Ok(h)
                        } else {
                            let mut m = String::from_str("Proposal #");
                            push_decimal(&mut m, proposal_id);
                            push_str(&mut m, " is still timelocked. ");
                            push_decimal(&mut m, release_time - now);
                            push_str(&mut m, "s remaining.");
                            Err(m)
                        }
                    },
                    _ => Err(String::from_str("Proposal is not in Timelocked state")),
                }
            },
        }
    }

    /// `execute_proposal_at` at the current time.
    pub fn execute_proposal(&mut self, proposal_id: u64) -> (r: Result<String, String>)
        ensures
            exists|now: u64|
                #![trigger execution(old(self)@, proposal_id, now)]
                final(self)@ == execution(old(self)@, proposal_id, now).0 && match r {
                    Ok(h) => execution(old(self)@, proposal_id, now).1 == Ok::<Seq<char>, Seq<char>>(h@),
                    Err(e) => execution(old(self)@, proposal_id, now).1 == Err::<Seq<char>, Seq<char>>(e@),
                },
    {
        let now = now_unix_secs();
        self.execute_proposal_at(proposal_id, now)
    }

    /// Copies of all proposals, in submission order.
    pub fn list_proposals(&self) -> (r: Vec<Proposal>)
        ensures
            r@.map_values(|p: Proposal| p@) == self@.proposals.map_values(|e: (ProposalView, ProposalStatus)| e.0),
    {
        let mut out: Vec<Proposal> = Vec::new();
        let mut i: usize = 0;
        while i < self.proposals.len()
            invariant
                i <= self.proposals@.len(),
                self@.proposals.len() == self.proposals@.len(),
                out@.len() == i,
                forall|j: int| 0 <= j < i ==> out@[j]@ == self@.proposals[j].0,
            decreases self.proposals@.len() - i,
        {
            out.push(copy_proposal(&self.proposals[i].0));
            i += 1;
        }
        assert(out@.map_values(|p: Proposal| p@) =~= self@.proposals.map_values(|e: (ProposalView, ProposalStatus)| e.0));
        out
    }

    /// The status of the first proposal with id `id`.
    pub fn status_of(&self, id: u64) -> (r: Option<ProposalStatus>)
        ensures
            match first_with_id(self@.proposals, id, 0) {
                Some(i) => r == Some(self@.proposals[i].1),
                None => r is None,
            },
    {
        match self.position_of(id) {
            Some(i) => Some(self.proposals[i].1),
            None => None,
        }
    }

    /// Sets the status of the first proposal with id `id`, if there is one.
    pub fn set_status(&mut self, id: u64, status: ProposalStatus)
        ensures
            final(self)@.proposals == match first_with_id(old(self)@.proposals, id, 0) {
                Some(i) => old(self)@.proposals.update(i, (old(self)@.proposals[i].0, status)),
                None => old(self)@.proposals,
            },
            final(self)@.votes == old(self)@.votes,
            final(self)@.nullifiers == old(self)@.nullifiers,
    {
        match self.position_of(id) {
            Some(i) => self.set_status_at(i, status),
            None => {},
        }
    }

    /// The number of accepted votes.
    pub fn vote_count(&self) -> (n: usize)
        ensures
            n == self@.votes.len(),
    {
        self.votes.len()
    }
}

} // verus!
