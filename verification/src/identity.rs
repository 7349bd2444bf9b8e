//! Voting identities: a secret, its Poseidon commitment and, per proposal,
//! its Poseidon nullifier, over the BN254 scalar field with the parameters
//! the vote circuit uses. A vote carries the nullifier, so an identity can
//! have one vote taken per proposal.

use vstd::prelude::*;
use ark_bn254::Fr;
use ark_crypto_primitives::crh::poseidon::CRH;
use ark_crypto_primitives::crh::CRHScheme;
use ark_crypto_primitives::sponge::poseidon::PoseidonConfig;
use ark_ff::{BigInteger, PrimeField};
use crate::governance::{accepts, after_vote, recorded_nullifier, zero_nullifier, GovernanceView, Vote, VoteView, ZkIdentity};
use crate::security::thread_rng_fill;
use crate::shards::lemma_hex_round_trip;
use crate::storage::hex_lower;

verus! {

/// Full rounds of the Poseidon permutation.
pub const POSEIDON_FULL_ROUNDS: usize = 8;

/// Partial rounds of the Poseidon permutation.
pub const POSEIDON_PARTIAL_ROUNDS: usize = 57;

/// The S-box exponent.
pub const POSEIDON_ALPHA: u64 = 5;

/// The MDS matrix (width 2), one row per pair.
pub open spec fn poseidon_mds_spec() -> Seq<(u64, u64)> {
    seq![(1u64, 2u64), (2u64, 1u64)]
}

/// The round constants: for round `i`, `(1000 i, 1000 i + 1)`.
pub open spec fn poseidon_ark_spec() -> Seq<(u64, u64)> {
    Seq::new(65, |i: int| ((i * 1000) as u64, (i * 1000 + 1) as u64))
}

/// The MDS matrix of `poseidon_mds_spec`.
pub fn poseidon_mds() -> (r: Vec<(u64, u64)>)
    ensures
        r@ == poseidon_mds_spec(),
{
    let r = vec![(1u64, 2u64), (2u64, 1u64)];
    assert(r@ =~= poseidon_mds_spec());
    r
}

/// The round constants of `poseidon_ark_spec`.
pub fn poseidon_ark() -> (r: Vec<(u64, u64)>)
    ensures
        r@ == poseidon_ark_spec(),
{
    let mut r: Vec<(u64, u64)> = Vec::new();
    let mut i: u64 = 0;
    while i < 65
        invariant
            i <= 65,
            r@.len() == i,
            forall|k: int| 0 <= k < i ==> #[trigger] r@[k] == ((k * 1000) as u64, (k * 1000 + 1) as u64),
        decreases 65 - i,
    {
        r.push((i * 1000, i * 1000 + 1));
        i += 1;
    }
    assert(r@ =~= poseidon_ark_spec());
    r
}

/// The name for what the Poseidon hash of `ark-crypto-primitives` (its
/// `CRH::evaluate`) gives for field elements written as 32 big-endian bytes
/// (reduced modulo the field order), under the configuration with these
/// rounds, exponent, MDS matrix and round constants (rate 1, capacity 1):
/// the resulting field element as 32 big-endian bytes.
pub uninterp spec fn poseidon_hash(
    full: usize,
    partial: usize,
    alpha: u64,
    mds: Seq<(u64, u64)>,
    ark: Seq<(u64, u64)>,
    inputs: Seq<Seq<u8>>,
) -> Seq<u8>;

/// `CRH::<Fr>::evaluate` on a `PoseidonConfig` built from the given values:
/// named `poseidon_hash`. The configuration's checks (as many constant rows
/// as rounds, a 2 x 2 matrix) hold by `requires`, and the hash itself does
/// not fail.
#[verifier::external_body]
fn poseidon_evaluate(
    full: usize,
    partial: usize,
    alpha: u64,
    mds: &Vec<(u64, u64)>,
    ark: &Vec<(u64, u64)>,
    inputs: &Vec<[u8; 32]>,
) -> (h: [u8; 32])
    requires
        mds@.len() == 2,
        ark@.len() == full + partial,
    ensures
        h@ == poseidon_hash(full, partial, alpha, mds@, ark@, inputs@.map_values(|a: [u8; 32]| a@)),
{
    let rows = |v: &Vec<(u64, u64)>| v.iter().map(|p| vec![Fr::from(p.0), Fr::from(p.1)]).collect::<Vec<_>>();
    let config = PoseidonConfig::new(full, partial, alpha, rows(mds), rows(ark), 1, 1);
    let elems: Vec<Fr> = inputs.iter().map(|b| Fr::from_be_bytes_mod_order(b)).collect();
    let out = <CRH<Fr> as CRHScheme>::evaluate(&config, elems).unwrap();
    out.into_bigint().to_bytes_be().try_into().unwrap()
}

/// A proposal id as a field element: 32 big-endian bytes.
pub open spec fn id_bytes(id: u64) -> Seq<u8> {
    Seq::new(32, |i: int| if i < 24 { 0u8 } else { (id >> (8 * (31 - i)) as u64) as u8 })
}

fn id_field_bytes(id: u64) -> (b: [u8; 32])
    ensures
        b@ == id_bytes(id),
{
    let mut b = [0u8; 32];
    let mut k: usize = 24;
    while k < 32
        invariant
            24 <= k <= 32,
            b@.len() == 32,
            forall|j: int| 0 <= j < 24 ==> b@[j] == 0u8,
            forall|j: int| 24 <= j < k ==> b@[j] == (id >> (8 * (31 - j)) as u64) as u8,
        decreases 32 - k,
    {
        let s: u64 = (8 * (31 - k)) as u64;
        b[k] = (id >> s) as u8;
        k += 1;
    }
    assert(b@ =~= id_bytes(id));
    b
}

/// The commitment of the identity of `secret`: Poseidon(secret).
pub open spec fn identity_commitment(secret: Seq<u8>) -> Seq<u8> {
    poseidon_hash(POSEIDON_FULL_ROUNDS, POSEIDON_PARTIAL_ROUNDS, POSEIDON_ALPHA, poseidon_mds_spec(), poseidon_ark_spec(), seq![secret])
}

/// The nullifier of the identity of `secret` for proposal `id`:
/// Poseidon(secret, id).
pub open spec fn identity_nullifier(secret: Seq<u8>, id: u64) -> Seq<u8> {
    poseidon_hash(
        POSEIDON_FULL_ROUNDS,
        POSEIDON_PARTIAL_ROUNDS,
        POSEIDON_ALPHA,
        poseidon_mds_spec(),
        poseidon_ark_spec(),
        seq![secret, id_bytes(id)],
    )
}

fn hash_fields(inputs: &Vec<[u8; 32]>) -> (h: [u8; 32])
    ensures
        h@ == poseidon_hash(
            POSEIDON_FULL_ROUNDS,
            POSEIDON_PARTIAL_ROUNDS,
            POSEIDON_ALPHA,
            poseidon_mds_spec(),
            poseidon_ark_spec(),
            inputs@.map_values(|a: [u8; 32]| a@),
        ),
{
    let mds = poseidon_mds();
    let ark = poseidon_ark();
    poseidon_evaluate(POSEIDON_FULL_ROUNDS, POSEIDON_PARTIAL_ROUNDS, POSEIDON_ALPHA, &mds, &ark, inputs)
}

impl ZkIdentity {
    /// The identity of `secret`: its commitment is Poseidon(secret); no
    /// nullifier is held yet and no GPU is used.
    pub fn from_secret(secret: [u8; 32]) -> (z: Self)
        ensures
            z.secret == secret,
            z.commitment@ == identity_commitment(secret@),
            z.nullifier_hash@ == zero_nullifier(),
            !z.use_gpu,
    {
        let inputs = vec![secret];
        assert(inputs@.map_values(|a: [u8; 32]| a@) =~= seq![secret@]);
        let commitment = hash_fields(&inputs);
        let z = ZkIdentity { commitment, nullifier_hash: [0u8; 32], secret, use_gpu: false };
        assert(z.nullifier_hash@ =~= zero_nullifier());
        z
    }

    /// A new identity from 32 bytes of the thread-local generator of
    /// `rand` (see `from_secret`).
    pub fn new() -> (z: Self)
        ensures
            z.commitment@ == identity_commitment(z.secret@),
            z.nullifier_hash@ == zero_nullifier(),
            !z.use_gpu,
    {
        let mut secret = [0u8; 32];
        thread_rng_fill(&mut secret);
        Self::from_secret(secret)
    }

    /// The identity's nullifier for proposal `proposal_id`:
    /// Poseidon(secret, proposal_id).
    pub fn derive_nullifier(&self, proposal_id: u64) -> (n: [u8; 32])
        ensures
            n@ == identity_nullifier(self.secret@, proposal_id),
    {
        let id = id_field_bytes(proposal_id);
        let inputs = vec![self.secret, id];
        assert(inputs@.map_values(|a: [u8; 32]| a@) =~= seq![self.secret@, id_bytes(proposal_id)]);
        hash_fields(&inputs)
    }
}

/// The vote of the identity `identity` on proposal `id`: its nullifier for
/// the proposal and its commitment in lower-case hexadecimal, with the
/// choice and the proof.
pub fn identity_vote(identity: &ZkIdentity, id: u64, approve: bool, proof: Vec<u8>) -> (v: Vote)
    ensures
        v.proposal_id == id,
        v.voter_hash@ == hex_lower(identity_nullifier(identity.secret@, id)),
        recorded_nullifier(v.voter_hash@) == identity_nullifier(identity.secret@, id),
        v.commitment@ == hex_lower(identity.commitment@),
        v.approve == approve,
        v.proof@ == proof@,
{
    let nullifier = identity.derive_nullifier(id);
    proof {
        lemma_hex_round_trip(nullifier@);
    }
    crate::voting::build_vote(id, approve, &nullifier, &identity.commitment, proof)
}

/// One vote per identity per proposal: once a vote carrying the nullifier
/// of the identity of `secret` for proposal `id` (as `identity_vote` writes
/// it) is taken, no vote carrying that identity's nullifier for `id` is
/// taken afterwards, whatever its choice, commitment or proof.
pub proof fn lemma_one_vote_per_identity(
    g: GovernanceView,
    v1: VoteView,
    ok1: bool,
    now: u64,
    v2: VoteView,
    ok2: bool,
    secret: Seq<u8>,
    id: u64,
)
    ensures
        accepts(g, v1, ok1) && v1.voter_hash == hex_lower(identity_nullifier(secret, id))
            && v2.voter_hash == hex_lower(identity_nullifier(secret, id)) ==> !accepts(after_vote(g, v1, now), v2, ok2),
{
    if accepts(g, v1, ok1) && v1.voter_hash == hex_lower(identity_nullifier(secret, id))
        && v2.voter_hash == hex_lower(identity_nullifier(secret, id)) {
        crate::governance::lemma_nullifier_spent(g, v1, ok1, now, v2, ok2);
    }
}

} // verus!
