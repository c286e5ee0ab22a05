use crypto_ext::store::MaterialStore;
use crypto_ext::asymmetric::signing::{get_signature_params, get_verification_params, setup, sign, verify};

#[test]
fn signing() {
    let data = "some data to sign".as_bytes();
    let path_to_params = "/test/signature_parameters/";
    let mut store = MaterialStore::new(String::new());

    // setup will read, or populate required parameters for signing and verification
    let _ = setup(&mut store, Some(path_to_params)).unwrap();

    let signature_params = get_signature_params(&store, Some(path_to_params)).unwrap();
    let signature = sign(signature_params, data).unwrap();

    let verification_params = get_verification_params(&store, Some(path_to_params)).unwrap();
    let verified = verify(verification_params, data, signature.as_slice());

    assert!(verified.is_ok());
}

#[test]
fn signing_alternative() {
    let data = "some data to sign".as_bytes();
    let path_to_params = "/test/signature_parameters/";
    let mut store = MaterialStore::new(String::new());

    let (signature_params, verification_params) = setup(&mut store, Some(path_to_params)).unwrap();

    let signature = sign(signature_params, data).unwrap();

    let verified = verify(verification_params, data, signature.as_slice());

    assert!(verified.is_ok());
}

#[test]
fn signature_over_different_message_fails() {
    let mut store = MaterialStore::new(String::new());
    let (signature_params, verification_params) = setup(&mut store, Some("/other/")).unwrap();
    let signature = sign(signature_params, "message one".as_bytes()).unwrap();
    assert!(verify(verification_params, "message two".as_bytes(), signature.as_slice()).is_err());
}

#[test]
fn generated_key_sizes() {
    let mut store = MaterialStore::new(String::new());
    let (signature_params, verification_params) = setup(&mut store, Some("/sizes/")).unwrap();
    assert_eq!(signature_params.ecdsa_private_key.len(), 32);
    assert_eq!(verification_params.ecdsa_public_key.len(), 65);
}

#[test]
fn ecdsa_setup_twice_returns_identical_material() {
    let mut store = MaterialStore::new(String::new());
    let (first_sig, first_ver) = setup(&mut store, Some("/twice/")).unwrap();
    let (second_sig, second_ver) = setup(&mut store, Some("/twice/")).unwrap();
    assert_eq!(first_sig.ecdsa_private_key, second_sig.ecdsa_private_key);
    assert_eq!(first_ver.ecdsa_public_key, second_ver.ecdsa_public_key);
}

#[test]
fn missing_keys_are_not_found() {
    let store = MaterialStore::new(String::new());
    assert!(get_signature_params(&store, Some("/nowhere/")).is_err());
    assert!(get_verification_params(&store, Some("/nowhere/")).is_err());
}

#[test]
fn malformed_private_key_is_rejected() {
    let params = crypto_ext::asymmetric::signing::SignatureParameters {
        ecdsa_private_key: vec![1, 2, 3],
    };
    assert!(sign(params, "data".as_bytes()).is_err());
}
