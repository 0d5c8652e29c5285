use dlog_proof::group::{
    generator, point_add, point_bytes, point_clone, point_eq, point_mul, random_scalar,
    scalar_add, scalar_eq, scalar_from_bytes, scalar_mul,
};
use dlog_proof::DLogProof;
use sha2::Digest;

#[test]
fn test_generate_proof() {
    let session_id = "session_1";
    let participant_id: i32 = 1;

    let base_point = generator();
    let private_key = random_scalar();
    let public_key = point_mul(&base_point, &private_key);

    let dlog_proof = DLogProof::generate_proof(
        session_id,
        participant_id,
        private_key,
        point_clone(&public_key),
        point_clone(&base_point),
    )
    .unwrap();
    assert!(dlog_proof
        .verify_proof(session_id, participant_id, public_key, base_point)
        .unwrap());
}

#[test]
fn test_generate_proof_fail() {
    let session_id = "session_1";
    let participant_id: i32 = 1;

    let base_point = generator();
    let private_key = random_scalar();
    let public_key = point_mul(&base_point, &private_key);

    let dlog_proof = DLogProof::generate_proof(
        session_id,
        participant_id,
        private_key,
        point_clone(&public_key),
        point_clone(&base_point),
    )
    .unwrap();
    let offset_key = point_add(&public_key, &base_point);
    assert!(!dlog_proof
        .verify_proof(session_id, participant_id, offset_key, base_point)
        .unwrap());
}

#[test]
fn test_generate_proof_fail2() {
    let session_id = "session_1";
    let participant_id: i32 = 1;

    let base_point = generator();
    let private_key = random_scalar();
    let public_key = point_mul(&base_point, &private_key);

    let dlog_proof = DLogProof::generate_proof(
        session_id,
        participant_id,
        private_key,
        point_clone(&public_key),
        point_clone(&base_point),
    )
    .unwrap();
    let offset_key = point_add(&public_key, &point_mul(&base_point, &random_scalar()));
    assert!(!dlog_proof
        .verify_proof(session_id, participant_id, offset_key, base_point)
        .unwrap());
}

#[test]
fn challenge_is_deterministic() {
    let session_id = "session_1";
    let participant_id: i32 = 7;
    let base = generator();
    let key = point_mul(&base, &random_scalar());

    let first = DLogProof::compute_challenge(
        session_id,
        participant_id,
        vec![point_clone(&base), point_clone(&key)],
    )
    .unwrap();
    let second = DLogProof::compute_challenge(
        session_id,
        participant_id,
        vec![point_clone(&base), point_clone(&key)],
    )
    .unwrap();
    assert!(scalar_eq(&first, &second));
}

#[test]
fn challenge_depends_on_point_order() {
    let session_id = "session_1";
    let participant_id: i32 = 7;
    let base = generator();
    let key = point_mul(&base, &random_scalar());

    let forward = DLogProof::compute_challenge(
        session_id,
        participant_id,
        vec![point_clone(&base), point_clone(&key)],
    )
    .unwrap();
    let backward = DLogProof::compute_challenge(
        session_id,
        participant_id,
        vec![point_clone(&key), point_clone(&base)],
    )
    .unwrap();
    assert!(!scalar_eq(&forward, &backward));
}

#[test]
fn challenge_matches_manual_digest() {
    let session_id = "session_1";
    let participant_id: i32 = 1;
    let base = generator();
    let key = point_mul(&base, &random_scalar());

    let mut transcript: Vec<u8> = Vec::new();
    transcript.extend_from_slice(session_id.as_bytes());
    transcript.extend_from_slice(&participant_id.to_be_bytes());
    transcript.extend_from_slice(&point_bytes(&base));
    transcript.extend_from_slice(&point_bytes(&key));
    let digest = sha2::Sha256::digest(&transcript);
    let expected = scalar_from_bytes(digest.as_slice());

    let challenge = DLogProof::compute_challenge(
        session_id,
        participant_id,
        vec![point_clone(&base), point_clone(&key)],
    )
    .unwrap();
    assert!(scalar_eq(&challenge, &expected));
}

#[test]
fn challenge_matches_manual_digest_negative_id() {
    let session_id = "abc";
    let participant_id: i32 = -7;
    let base = generator();

    let mut transcript: Vec<u8> = Vec::new();
    transcript.extend_from_slice(session_id.as_bytes());
    transcript.extend_from_slice(&participant_id.to_be_bytes());
    transcript.extend_from_slice(&point_bytes(&base));
    let digest = sha2::Sha256::digest(&transcript);
    let expected = scalar_from_bytes(digest.as_slice());

    let challenge =
        DLogProof::compute_challenge(session_id, participant_id, vec![point_clone(&base)])
            .unwrap();
    assert!(scalar_eq(&challenge, &expected));
}

#[test]
fn challenge_of_no_points_matches_manual_digest() {
    let session_id = "";
    let participant_id: i32 = 0;

    let mut transcript: Vec<u8> = Vec::new();
    transcript.extend_from_slice(session_id.as_bytes());
    transcript.extend_from_slice(&participant_id.to_be_bytes());
    let digest = sha2::Sha256::digest(&transcript);
    let expected = scalar_from_bytes(digest.as_slice());

    let challenge = DLogProof::compute_challenge(session_id, participant_id, vec![]).unwrap();
    assert!(scalar_eq(&challenge, &expected));
}

#[test]
fn context_binding_session() {
    let participant_id: i32 = 1;
    let base_point = generator();
    let private_key = random_scalar();
    let public_key = point_mul(&base_point, &private_key);

    let dlog_proof = DLogProof::generate_proof(
        "A",
        participant_id,
        private_key,
        point_clone(&public_key),
        point_clone(&base_point),
    )
    .unwrap();
    assert!(!dlog_proof
        .verify_proof("B", participant_id, public_key, base_point)
        .unwrap());
}

#[test]
fn context_binding_participant() {
    let session_id = "session_1";
    let base_point = generator();
    let private_key = random_scalar();
    let public_key = point_mul(&base_point, &private_key);

    let dlog_proof = DLogProof::generate_proof(
        session_id,
        1,
        private_key,
        point_clone(&public_key),
        point_clone(&base_point),
    )
    .unwrap();
    assert!(!dlog_proof
        .verify_proof(session_id, 2, public_key, base_point)
        .unwrap());
}

#[test]
fn altered_commitment_fails() {
    let session_id = "session_1";
    let participant_id: i32 = 1;
    let base_point = generator();
    let private_key = random_scalar();
    let public_key = point_mul(&base_point, &private_key);

    let dlog_proof = DLogProof::generate_proof(
        session_id,
        participant_id,
        private_key,
        point_clone(&public_key),
        point_clone(&base_point),
    )
    .unwrap();
    let altered = DLogProof {
        commitment: point_add(&dlog_proof.commitment, &base_point),
        response: dlog_proof.response,
    };
    assert!(!altered
        .verify_proof(session_id, participant_id, public_key, base_point)
        .unwrap());
}

#[test]
fn altered_response_fails() {
    let session_id = "session_1";
    let participant_id: i32 = 1;
    let base_point = generator();
    let private_key = random_scalar();
    let public_key = point_mul(&base_point, &private_key);

    let dlog_proof = DLogProof::generate_proof(
        session_id,
        participant_id,
        private_key,
        point_clone(&public_key),
        point_clone(&base_point),
    )
    .unwrap();
    let one = scalar_from_bytes(&[1u8]);
    let altered = DLogProof {
        commitment: dlog_proof.commitment,
        response: scalar_add(&dlog_proof.response, &one),
    };
    assert!(!altered
        .verify_proof(session_id, participant_id, public_key, base_point)
        .unwrap());
}

#[test]
fn prove_with_nonce_is_deterministic() {
    let session_id = "session_1";
    let participant_id: i32 = 1;
    let base_point = generator();
    let private_key = scalar_from_bytes(&[42u8]);
    let public_key = point_mul(&base_point, &private_key);
    let nonce = scalar_from_bytes(&[5u8, 77u8]);

    let first = DLogProof::prove_with_nonce(
        session_id,
        participant_id,
        &private_key,
        &public_key,
        &base_point,
        &nonce,
    )
    .unwrap();
    let second = DLogProof::prove_with_nonce(
        session_id,
        participant_id,
        &private_key,
        &public_key,
        &base_point,
        &nonce,
    )
    .unwrap();
    assert!(point_eq(&first.commitment, &second.commitment));
    assert!(scalar_eq(&first.response, &second.response));
    assert!(first
        .verify_proof(session_id, participant_id, public_key, base_point)
        .unwrap());
}

#[test]
fn scalar_from_bytes_reduces_modulo_group_order() {
    let group_order_bytes: [u8; 32] = [
        0xff, 0xff, 0xff, 0xff, 0xff, 0xff, 0xff, 0xff, 0xff, 0xff, 0xff, 0xff, 0xff, 0xff,
        0xff, 0xfe, 0xba, 0xae, 0xdc, 0xe6, 0xaf, 0x48, 0xa0, 0x3b, 0xbf, 0xd2, 0x5e, 0x8c,
        0xd0, 0x36, 0x41, 0x41,
    ];
    let reduced = scalar_from_bytes(&group_order_bytes);
    let zero = scalar_from_bytes(&[]);
    assert!(scalar_eq(&reduced, &zero));

    let above = {
        let mut bytes = group_order_bytes;
        bytes[31] = 0x44;
        bytes
    };
    let three = scalar_from_bytes(&[3u8]);
    assert!(scalar_eq(&scalar_from_bytes(&above), &three));
}

#[test]
fn group_scalar_homomorphism() {
    let base = generator();
    let two = scalar_from_bytes(&[2u8]);
    let three = scalar_from_bytes(&[3u8]);
    let five = scalar_from_bytes(&[5u8]);
    let six = scalar_from_bytes(&[6u8]);

    assert!(scalar_eq(&scalar_add(&two, &three), &five));
    assert!(scalar_eq(&scalar_mul(&two, &three), &six));
    let sum_point = point_add(&point_mul(&base, &two), &point_mul(&base, &three));
    assert!(point_eq(&sum_point, &point_mul(&base, &five)));
    assert!(!point_eq(&sum_point, &point_mul(&base, &six)));
}
