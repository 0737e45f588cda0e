use zk_leaderboard::commitment::commitment_hash;
use zk_leaderboard::commitment::verify_commitment;

#[test]
fn commitment_round_trip_accepts() {
    let salt: Vec<u8> = vec![0u8; 32];
    let hash = commitment_hash(100, &salt);
    assert!(verify_commitment(100, &salt, &hash));
}

#[test]
fn commitment_hash_is_a_digest() {
    let salt: Vec<u8> = vec![7u8; 32];
    let hash = commitment_hash(42, &salt);
    assert_eq!(hash.len(), 32);
    // not the input handed back
    assert_ne!(hash, salt);
    let mut input: Vec<u8> = vec![0u8, 0u8, 0u8, 42u8];
    input.extend_from_slice(&salt);
    assert_ne!(hash, input);
    // a function of the input alone
    assert_eq!(hash, commitment_hash(42, &salt));
}

#[test]
fn commitment_rejects_every_bit_flip() {
    let salt: Vec<u8> = vec![5u8; 32];
    let hash = commitment_hash(77, &salt);
    for byte in 0..32 {
        for bit in 0..8 {
            let mut flipped = hash.clone();
            flipped[byte] ^= 1u8 << bit;
            assert!(!verify_commitment(77, &salt, &flipped));
        }
    }
}

#[test]
fn commitment_rejects_wrong_score() {
    let salt: Vec<u8> = vec![1u8; 32];
    let hash = commitment_hash(100, &salt);
    assert!(!verify_commitment(101, &salt, &hash));
}

#[test]
fn commitment_rejects_wrong_salt() {
    let salt: Vec<u8> = vec![1u8; 32];
    let other: Vec<u8> = vec![2u8; 32];
    let hash = commitment_hash(100, &salt);
    assert!(!verify_commitment(100, &other, &hash));
}

#[test]
fn commitment_rejects_malformed_lengths() {
    let salt: Vec<u8> = vec![0u8; 32];
    let hash = commitment_hash(100, &salt);
    let short_salt: Vec<u8> = vec![0u8; 31];
    assert!(!verify_commitment(100, &short_salt, &hash));
    let mut truncated = hash.clone();
    truncated.pop();
    assert!(!verify_commitment(100, &salt, &truncated));
    let empty: Vec<u8> = Vec::new();
    assert!(!verify_commitment(100, &salt, &empty));
}
