//! A non-interactive zero-knowledge proof of knowledge of a discrete
//! logarithm (a Schnorr proof made non-interactive by the Fiat-Shamir
//! transform) over the secp256k1 prime-order group.
//!
//! A prover who knows a secret scalar `x` with `Y = x·B` for a known base
//! point `B` produces a pair `(R, s)` that convinces any verifier of this
//! fact without revealing `x`. The challenge is derived by hashing a
//! session identifier, a participant identifier and the points `B`, `Y`,
//! `R`, which binds the proof to its context and prevents replay.
pub mod group;
pub mod laws;
pub mod math;
pub mod transcript;

use crate::group::{
    point_add, point_bytes, point_clone, point_eq, point_mul, point_value, random_scalar,
    scalar_add, scalar_is_zero, scalar_mul, scalar_value, FieldScalar, GroupPoint,
};
use crate::math::{add_mod, group_order, mul_mod};
use crate::transcript::{
    challenge_value, participant_bytes, points_bytes, push_participant_bytes, sha256,
};
use vstd::prelude::*;

verus! {

/// The one unrecoverable failure: the Fiat-Shamir challenge reduced to the
/// zero scalar, which would degenerate the proof to a trivial relation.
/// Distinct from a proof merely failing verification, which is the ordinary
/// `false` outcome of the verifier.
#[derive(Clone, Copy, Debug, PartialEq, Eq, Structural)]
pub enum ProofError {
    DerivationFailed,
}

/// A non-interactive proof of knowledge of a discrete logarithm: the
/// prover's commitment `R = k·B` and response `s = k + x·c`, meaningful
/// only together with the context (session identifier, participant
/// identifier, base point, public key) it was produced under.
pub struct DLogProof {
    pub commitment: GroupPoint,
    pub response: FieldScalar,
}

/// The challenge bound to a proof context: derived from the session
/// identifier, the participant identifier and the points base, public key
/// and commitment, in that order.
pub open spec fn context_challenge(
    sid: Seq<char>,
    participant_id: i32,
    base: nat,
    pk: nat,
    com: nat,
) -> nat {
    challenge_value(sid, participant_id, seq![base, pk, com])
}

/// The challenge an honest prover with nonce `k` meets: the context
/// challenge for the commitment `k·B`.
pub open spec fn nonce_challenge(
    sid: Seq<char>,
    participant_id: i32,
    base: nat,
    pk: nat,
    k: nat,
) -> nat {
    context_challenge(sid, participant_id, base, pk, mul_mod(base, k))
}

/// The algebraic relation the verifier checks, over model values:
/// `B·s == R + Y·c` in the group, i.e. `base·resp == com + pk·c` modulo the
/// group order on the discrete logarithms.
pub open spec fn schnorr_relation(base: nat, pk: nat, com: nat, resp: nat, c: nat) -> bool {
    mul_mod(base, resp) == add_mod(com, mul_mod(pk, c))
}

/// What an honest prover produces from the secret `x` and the nonce `k`:
/// commitment `k·B` and response `k + x·c` under the context challenge.
pub open spec fn honest_proof(
    pf: DLogProof,
    sid: Seq<char>,
    participant_id: i32,
    x: nat,
    pk: nat,
    base: nat,
    k: nat,
) -> bool {
    let com = mul_mod(base, k);
    let c = context_challenge(sid, participant_id, base, pk, com);
    &&& point_value(pf.commitment) == com
    &&& scalar_value(pf.response) == add_mod(k, mul_mod(x, c))
}

impl DLogProof {
    /// Assembles a proof from its two parts.
    fn new(commitment: GroupPoint, response: FieldScalar) -> (r: DLogProof)
        ensures
            r.commitment == commitment,
            r.response == response,
    {
        DLogProof { commitment, response }
    }

    /// Challenge Derivation: hashes the session identifier, the fixed-width
    /// big-endian participant identifier and the uncompressed serialization
    /// of each point, in order, and reduces the digest into a field scalar.
    /// A zero scalar is an unrecoverable derivation failure, never returned
    /// as a challenge.
    pub fn compute_challenge(
        session_id: &str,
        participant_id: i32,
        points: Vec<GroupPoint>,
    ) -> (r: Result<FieldScalar, ProofError>)
        ensures
            ({
                let c = challenge_value(
                    session_id@,
                    participant_id,
                    points@.map_values(|p: GroupPoint| point_value(p)),
                );
                match r {
                    Ok(s) => c != 0 && scalar_value(s) == c,
                    Err(e) => e == ProofError::DerivationFailed && c == 0,
                }
            }),
    {
        let ghost vals = points@.map_values(|p: GroupPoint| point_value(p));
        let mut transcript: Vec<u8> = Vec::new();
        transcript.extend_from_slice(session_id.as_bytes());
        push_participant_bytes(&mut transcript, participant_id);
        let n = points.len();
        let mut i: usize = 0;
        while i < n
            invariant
                i <= n,
                n == points@.len(),
                vals == points@.map_values(|p: GroupPoint| point_value(p)),
                transcript@ == vstd::utf8::encode_utf8(session_id@) + participant_bytes(
                    participant_id,
                ) + points_bytes(vals.take(i as int)),
            decreases n - i,
        {
            let bytes = point_bytes(&points[i]);
            transcript.extend_from_slice(bytes.as_slice());
            proof {
                let prefix = vals.take(i + 1 as int);
                assert(prefix.drop_last() =~= vals.take(i as int));
                assert(prefix.last() == vals[i as int]);
            }
            i += 1;
        }
        proof {
            assert(vals.take(n as int) =~= vals);
        }
        let digest = sha256(transcript.as_slice());
        let challenge = crate::group::scalar_from_bytes(digest.as_slice());
        if scalar_is_zero(&challenge) {
            Err(ProofError::DerivationFailed)
        } else {
            Ok(challenge)
        }
    }

    /// The deterministic part of the prover: from the secret, the context
    /// and a given nonce `k`, the commitment `R = k·B`, the context
    /// challenge `c` and the response `s = k + x·c`. Fails exactly when the
    /// challenge derivation does. The caller is responsible for `Y = x·B`
    /// and for never reusing a nonce; neither is checked here.
    pub fn prove_with_nonce(
        session_id: &str,
        participant_id: i32,
        private_key: &FieldScalar,
        public_key: &GroupPoint,
        base_point: &GroupPoint,
        nonce: &FieldScalar,
    ) -> (r: Result<DLogProof, ProofError>)
        ensures
            ({
                let c = nonce_challenge(
                    session_id@,
                    participant_id,
                    point_value(*base_point),
                    point_value(*public_key),
                    scalar_value(*nonce),
                );
                match r {
                    Ok(pf) => c != 0 && honest_proof(
                        pf,
                        session_id@,
                        participant_id,
                        scalar_value(*private_key),
                        point_value(*public_key),
                        point_value(*base_point),
                        scalar_value(*nonce),
                    ),
                    Err(e) => e == ProofError::DerivationFailed && c == 0,
                }
            }),
    {
        let commitment = point_mul(base_point, nonce);
        let points = vec![
            point_clone(base_point),
            point_clone(public_key),
            point_clone(&commitment),
        ];
        proof {
            assert(points@.map_values(|p: GroupPoint| point_value(p)) =~= seq![
                point_value(*base_point),
                point_value(*public_key),
                point_value(commitment),
            ]);
        }
        let challenge = match Self::compute_challenge(session_id, participant_id, points) {
            Ok(c) => c,
            Err(e) => {
                return Err(e);
            },
        };
        let response = scalar_add(nonce, &scalar_mul(private_key, &challenge));
        Ok(DLogProof::new(commitment, response))
    }

    /// Prover operation: samples a fresh random nonzero nonce and produces
    /// the proof for it. The caller is responsible for `Y = x·B`; this is
    /// not re-verified here.
    pub fn generate_proof(
        session_id: &str,
        participant_id: i32,
        private_key: FieldScalar,
        public_key: GroupPoint,
        base_point: GroupPoint,
    ) -> (r: Result<DLogProof, ProofError>)
        ensures
            ({
                let base = point_value(base_point);
                let pk = point_value(public_key);
                let x = scalar_value(private_key);
                match r {
                    Ok(pf) => exists|k: nat|
                        0 < k < group_order() && #[trigger] honest_proof(
                            pf,
                            session_id@,
                            participant_id,
                            x,
                            pk,
                            base,
                            k,
                        ) && nonce_challenge(session_id@, participant_id, base, pk, k) != 0,
                    Err(e) => e == ProofError::DerivationFailed && exists|k: nat|
                        0 < k < group_order() && (#[trigger] nonce_challenge(
                            session_id@,
                            participant_id,
                            base,
                            pk,
                            k,
                        )) == 0,
                }
            }),
    {
        let nonce = random_scalar();
        let r = Self::prove_with_nonce(
            session_id,
            participant_id,
            &private_key,
            &public_key,
            &base_point,
            &nonce,
        );
        proof {
            let k = scalar_value(nonce);
            assert(r matches Ok(pf) ==> honest_proof(
                pf,
                session_id@,
                participant_id,
                scalar_value(private_key),
                point_value(public_key),
                point_value(base_point),
                k,
            ));
            assert(r matches Err(_) ==> nonce_challenge(
                session_id@,
                participant_id,
                point_value(base_point),
                point_value(public_key),
                k,
            ) == 0);
        }
        r
    }

    /// Verifier operation: recomputes the context challenge and checks the
    /// group relation `B·s == R + Y·c`. A pure predicate: `Ok(false)` is
    /// the ordinary outcome for any mismatched or forged proof; only a zero
    /// challenge is an error, exactly as on the prover's side.
    pub fn verify_proof(
        &self,
        session_id: &str,
        participant_id: i32,
        public_key: GroupPoint,
        base_point: GroupPoint,
    ) -> (r: Result<bool, ProofError>)
        ensures
            ({
                let c = context_challenge(
                    session_id@,
                    participant_id,
                    point_value(base_point),
                    point_value(public_key),
                    point_value(self.commitment),
                );
                match r {
                    Ok(v) => c != 0 && v == schnorr_relation(
                        point_value(base_point),
                        point_value(public_key),
                        point_value(self.commitment),
                        scalar_value(self.response),
                        c,
                    ),
                    Err(e) => e == ProofError::DerivationFailed && c == 0,
                }
            }),
    {
        let points = vec![
            point_clone(&base_point),
            point_clone(&public_key),
            point_clone(&self.commitment),
        ];
        proof {
            assert(points@.map_values(|p: GroupPoint| point_value(p)) =~= seq![
                point_value(base_point),
                point_value(public_key),
                point_value(self.commitment),
            ]);
        }
        let challenge = match Self::compute_challenge(session_id, participant_id, points) {
            Ok(c) => c,
            Err(e) => {
                return Err(e);
            },
        };
        let lhs = point_mul(&base_point, &self.response);
        let rhs = point_add(&self.commitment, &point_mul(&public_key, &challenge));
        Ok(point_eq(&lhs, &rhs))
    }
}

} // verus!
