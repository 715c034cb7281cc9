use mcpacker::integrity::{accepts, digest, parse_algorithm, same_digest, DigestAlgorithm, DigestState};

#[test]
fn sha1_of_abc() {
    assert_eq!(
        digest(DigestAlgorithm::Sha1, b"abc"),
        "a9993e364706816aba3e25717850c26c9cd0d89d"
    );
}

#[test]
fn sha256_of_abc() {
    assert_eq!(
        digest(DigestAlgorithm::Sha256, b"abc"),
        "ba7816bf8f01cfea414140de5dae2223b00361a396177a9cb410ff61f20015ad"
    );
}

#[test]
fn sha512_of_abc() {
    assert_eq!(
        digest(DigestAlgorithm::Sha512, b"abc"),
        "ddaf35a193617abacc417349ae20413112e6fa4e89a97ea20a9eeee64b55d39a2192992a274fc1a836ba3c23a3feebbd454d4423643ce80e2a9ac94fa54ca49f"
    );
}

#[test]
fn disabled_digest_is_empty() {
    assert_eq!(digest(DigestAlgorithm::Disabled, b"abc"), "");
}

#[test]
fn streaming_equals_one_shot() {
    let mut state = DigestState::new(DigestAlgorithm::Sha1);
    state.update(b"a");
    state.update(b"");
    state.update(b"bc");
    assert_eq!(state.finish(), digest(DigestAlgorithm::Sha1, b"abc"));
    let mut wide = DigestState::new(DigestAlgorithm::Sha512);
    wide.update(b"ab");
    wide.update(b"c");
    assert_eq!(wide.finish(), digest(DigestAlgorithm::Sha512, b"abc"));
    let mut mid = DigestState::new(DigestAlgorithm::Sha256);
    mid.update(b"ab");
    mid.update(b"c");
    assert_eq!(mid.finish(), digest(DigestAlgorithm::Sha256, b"abc"));
}

#[test]
fn empty_input_digest() {
    assert_eq!(
        digest(DigestAlgorithm::Sha1, b""),
        "da39a3ee5e6b4b0d3255bfef95601890afd80709"
    );
}

#[test]
fn algorithm_labels() {
    assert_eq!(parse_algorithm("sha1"), DigestAlgorithm::Sha1);
    assert_eq!(parse_algorithm("sha512"), DigestAlgorithm::Sha512);
    assert_eq!(parse_algorithm("none"), DigestAlgorithm::Disabled);
    assert_eq!(parse_algorithm(""), DigestAlgorithm::Disabled);
    assert_eq!(parse_algorithm("sha256"), DigestAlgorithm::Disabled);
    assert_eq!(parse_algorithm("blake3"), DigestAlgorithm::Disabled);
    assert_eq!(parse_algorithm("SHA1"), DigestAlgorithm::Disabled);
}

#[test]
fn matching_ignores_letter_case() {
    assert!(same_digest("a9993e36", "A9993E36"));
    assert!(same_digest("A9993e36", "a9993E36"));
    assert!(same_digest("", ""));
    assert!(!same_digest("a9993e36", "a9993e37"));
    assert!(!same_digest("a9993e36", "a9993e3"));
    assert!(!same_digest("a9993e36", ""));
}

#[test]
fn acceptance_policy() {
    let good = "a9993e364706816aba3e25717850c26c9cd0d89d";
    assert!(accepts(false, good, DigestAlgorithm::Sha1, good));
    assert!(accepts(false, "A9993E364706816ABA3E25717850C26C9CD0D89D", DigestAlgorithm::Sha1, good));
    assert!(!accepts(false, good, DigestAlgorithm::Sha1, "00"));
    assert!(accepts(true, good, DigestAlgorithm::Sha1, "00"));
    assert!(accepts(false, "", DigestAlgorithm::Sha1, "00"));
    assert!(accepts(false, good, DigestAlgorithm::Disabled, "00"));
}
