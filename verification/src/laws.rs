//! The laws of the proof system, stated over the model values that the
//! contracts of `generate_proof`, `verify_proof` and `compute_challenge`
//! speak of, and proved from the same algebra.
//!
//! The soundness laws hold up to a hash-collision event: substituting a
//! key, a context or a commitment changes the recomputed challenge, and the
//! altered proof still verifies only if the altered challenge happens to
//! weigh the altered inputs to the very same value modulo the group order.
//! Each such lemma states that exact algebraic condition and excludes the
//! negligible collision by a `requires` clause.
use crate::group::{point_value, scalar_value};
use crate::math::{add_mod, group_order, lemma_mod_add_cancel, lemma_schnorr_equation, mul_mod};
use crate::transcript::challenge_value;
use crate::{context_challenge, honest_proof, schnorr_relation, DLogProof};
use vstd::arithmetic::div_mod::{lemma_mod_bound, lemma_small_mod};
use vstd::prelude::*;

verus! {

/// Completeness: a proof honestly produced from a secret `x`, a base `b`
/// and a public key `x·b` satisfies the relation the verifier checks, under
/// the very challenge the verifier recomputes — so verification returns
/// `true` whenever the challenge derivation succeeds.
pub proof fn lemma_completeness(
    pf: DLogProof,
    sid: Seq<char>,
    participant_id: i32,
    x: nat,
    base: nat,
    k: nat,
)
    requires
        honest_proof(pf, sid, participant_id, x, mul_mod(base, x), base, k),
    ensures
        schnorr_relation(
            base,
            mul_mod(base, x),
            point_value(pf.commitment),
            scalar_value(pf.response),
            context_challenge(
                sid,
                participant_id,
                base,
                mul_mod(base, x),
                point_value(pf.commitment),
            ),
        ),
{
    let pk = mul_mod(base, x);
    let com = mul_mod(base, k);
    let c = context_challenge(sid, participant_id, base, pk, com);
    assert(base * x == x * base) by (nonlinear_arith);
    lemma_schnorr_equation(base, x, k, c);
}

/// A commitment and response cannot satisfy the relation under two
/// challenge-weighted keys that differ modulo the group order.
proof fn lemma_weighted_key_cancel(
    base: nat,
    pk1: nat,
    pk2: nat,
    com: nat,
    resp: nat,
    c1: nat,
    c2: nat,
)
    requires
        schnorr_relation(base, pk1, com, resp, c1),
        mul_mod(pk2, c2) != mul_mod(pk1, c1),
    ensures
        !schnorr_relation(base, pk2, com, resp, c2),
{
    let m = group_order();
    if schnorr_relation(base, pk2, com, resp, c2) {
        lemma_mod_bound((pk1 * c1) as int, m as int);
        lemma_mod_bound((pk2 * c2) as int, m as int);
        lemma_mod_add_cancel(com, mul_mod(pk1, c1), mul_mod(pk2, c2), m);
    }
}

/// Soundness under key substitution: a proof that verifies for one public
/// key fails for any other, each under the challenge recomputed for it,
/// unless the substituted key weighted by its challenge collides with the
/// original modulo the group order.
pub proof fn lemma_key_substitution(
    sid: Seq<char>,
    participant_id: i32,
    base: nat,
    pk1: nat,
    pk2: nat,
    com: nat,
    resp: nat,
)
    requires
        schnorr_relation(
            base,
            pk1,
            com,
            resp,
            context_challenge(sid, participant_id, base, pk1, com),
        ),
        mul_mod(pk2, context_challenge(sid, participant_id, base, pk2, com)) != mul_mod(
            pk1,
            context_challenge(sid, participant_id, base, pk1, com),
        ),
    ensures
        !schnorr_relation(
            base,
            pk2,
            com,
            resp,
            context_challenge(sid, participant_id, base, pk2, com),
        ),
{
    lemma_weighted_key_cancel(
        base,
        pk1,
        pk2,
        com,
        resp,
        context_challenge(sid, participant_id, base, pk1, com),
        context_challenge(sid, participant_id, base, pk2, com),
    );
}

/// Soundness under a randomized key offset: substituting `pk + base·r` for
/// a nonzero scalar `r` fails verification, unless the offset key weighted
/// by its recomputed challenge collides with the original.
pub proof fn lemma_randomized_offset(
    sid: Seq<char>,
    participant_id: i32,
    base: nat,
    pk: nat,
    r: nat,
    com: nat,
    resp: nat,
)
    requires
        r != 0,
        schnorr_relation(
            base,
            pk,
            com,
            resp,
            context_challenge(sid, participant_id, base, pk, com),
        ),
        mul_mod(
            add_mod(pk, mul_mod(base, r)),
            context_challenge(sid, participant_id, base, add_mod(pk, mul_mod(base, r)), com),
        ) != mul_mod(pk, context_challenge(sid, participant_id, base, pk, com)),
    ensures
        !schnorr_relation(
            base,
            add_mod(pk, mul_mod(base, r)),
            com,
            resp,
            context_challenge(sid, participant_id, base, add_mod(pk, mul_mod(base, r)), com),
        ),
{
    lemma_key_substitution(
        sid,
        participant_id,
        base,
        pk,
        add_mod(pk, mul_mod(base, r)),
        com,
        resp,
    );
}

/// Context binding: a proof valid under one (session, participant) context
/// fails under another, unless the challenge recomputed in the other
/// context weighs the public key to the very same value.
pub proof fn lemma_context_binding(
    sid1: Seq<char>,
    sid2: Seq<char>,
    pid1: i32,
    pid2: i32,
    base: nat,
    pk: nat,
    com: nat,
    resp: nat,
)
    requires
        schnorr_relation(base, pk, com, resp, context_challenge(sid1, pid1, base, pk, com)),
        mul_mod(pk, context_challenge(sid2, pid2, base, pk, com)) != mul_mod(
            pk,
            context_challenge(sid1, pid1, base, pk, com),
        ),
    ensures
        !schnorr_relation(base, pk, com, resp, context_challenge(sid2, pid2, base, pk, com)),
{
    lemma_weighted_key_cancel(
        base,
        pk,
        pk,
        com,
        resp,
        context_challenge(sid1, pid1, base, pk, com),
        context_challenge(sid2, pid2, base, pk, com),
    );
}

/// Determinism of the challenge: the challenge is a mathematical function
/// of the session identifier, the participant identifier and the ordered
/// point values, so two derivations over identical inputs agree.
pub proof fn lemma_challenge_deterministic(
    sid: Seq<char>,
    participant_id: i32,
    vals1: Seq<nat>,
    vals2: Seq<nat>,
    c1: nat,
    c2: nat,
)
    requires
        vals1 == vals2,
        c1 == challenge_value(sid, participant_id, vals1),
        c2 == challenge_value(sid, participant_id, vals2),
    ensures
        c1 == c2,
{
}

/// Non-malleability in the response, for a proof over the generator as
/// base point: any change of the response of a valid proof, however small,
/// makes verification fail.
pub proof fn lemma_response_altered(pk: nat, com: nat, resp1: nat, resp2: nat, c: nat)
    requires
        resp1 < group_order(),
        resp2 < group_order(),
        resp1 != resp2,
        schnorr_relation(1, pk, com, resp1, c),
    ensures
        !schnorr_relation(1, pk, com, resp2, c),
{
    let m = group_order();
    lemma_small_mod(resp1, m);
    lemma_small_mod(resp2, m);
}

/// Non-malleability in the commitment: a changed commitment changes the
/// recomputed challenge as well, and the altered proof fails verification
/// unless the two happen to rebuild the very same right-hand side of the
/// check.
pub proof fn lemma_commitment_altered(
    sid: Seq<char>,
    participant_id: i32,
    base: nat,
    pk: nat,
    com1: nat,
    com2: nat,
    resp: nat,
)
    requires
        schnorr_relation(
            base,
            pk,
            com1,
            resp,
            context_challenge(sid, participant_id, base, pk, com1),
        ),
        add_mod(com2, mul_mod(pk, context_challenge(sid, participant_id, base, pk, com2)))
            != add_mod(
            com1,
            mul_mod(pk, context_challenge(sid, participant_id, base, pk, com1)),
        ),
    ensures
        !schnorr_relation(
            base,
            pk,
            com2,
            resp,
            context_challenge(sid, participant_id, base, pk, com2),
        ),
{
}

} // verus!
