use addgate::backend::{prepare, prove, verify, Outcome, Proof};
use addgate::system::Error;
use halo2_proofs::pasta::Fp;

fn proof_for(a: u64, b: u64, c: u64) -> Proof {
    let public_input = vec![Fp::from(a), Fp::from(b), Fp::from(c)];
    let (_config, trace) = prepare(public_input).unwrap();
    prove(trace).unwrap()
}

#[test]
fn proof_bytes_roundtrip() {
    let proof = proof_for(2, 75, 77);
    let bytes = proof.to_bytes().unwrap();
    assert_eq!(bytes.len(), 1 + 32 * 3);
    assert_eq!(bytes[0], 3);

    let restored = Proof::from_bytes(&bytes).unwrap();
    let public_input = vec![Fp::from(2), Fp::from(75), Fp::from(77)];
    assert_eq!(verify(&restored, &public_input), Outcome::Accepted);

    let tampered = vec![Fp::from(2), Fp::from(75), Fp::from(78)];
    assert_eq!(verify(&restored, &tampered), Outcome::Rejected);
}

#[test]
fn empty_bytes_are_malformed() {
    assert!(matches!(
        Proof::from_bytes(&Vec::new()),
        Err(Error::MalformedProof)
    ));
}

#[test]
fn truncated_bytes_are_malformed() {
    let proof = proof_for(2, 75, 77);
    let mut bytes = proof.to_bytes().unwrap();
    bytes.pop();
    assert!(matches!(Proof::from_bytes(&bytes), Err(Error::MalformedProof)));
}

#[test]
fn tampered_value_bytes_are_malformed() {
    let proof = proof_for(2, 75, 77);
    let mut bytes = proof.to_bytes().unwrap();
    // Raise the committed first summand by one: the sum relation no longer
    // holds for the committed values, so no proof can be rebuilt from them.
    bytes[1] = bytes[1].wrapping_add(1);
    assert!(matches!(Proof::from_bytes(&bytes), Err(Error::MalformedProof)));
}

#[test]
fn non_canonical_encoding_is_malformed() {
    let proof = proof_for(2, 75, 77);
    let mut bytes = proof.to_bytes().unwrap();
    // A chunk of all ones is no canonical encoding of any field element.
    for k in 0..32 {
        bytes[1 + k] = 0xff;
    }
    assert!(matches!(Proof::from_bytes(&bytes), Err(Error::MalformedProof)));
}
