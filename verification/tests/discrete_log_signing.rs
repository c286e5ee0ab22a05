use crypto_ext::store::MaterialStore;
use crypto_ext::signing::{get_or_create_value_at_path, get_signature_params, get_verification_params, setup, sign, verify};

#[test]
fn tests_signing() {
    let data = "c29tZSB0ZXh0c29tZSB0ZXh0c29tZSB0ZXh0c29tZSB0ZXh0c29tZSB0ZXh0c29tZSB0ZXh0c29tZSB0ZXh0c29tZSB0ZXh0c29tZSB0ZXh0c29tZSB0ZXh0c29tZSB0ZXh0c29tZSB0ZXh0c29tZSB0ZXh0c29tZSB0ZXh0c29tZSB0ZXh0c29tZSB0ZXh0c29tZSB0ZXh0c29tZSB0ZXh0c29tZSB0ZXh0c29tZSB0ZXh0c29tZSB0ZXh0c29tZSB0ZXh0c29tZSB0ZXh0c29tZSB0ZXh0c29tZSB0ZXh0c29tZSB0ZXh0c29tZSB0ZXh0c29tZSB0ZXh0c29tZSB0ZXh0c29tZSB0ZXh0c29tZSB0ZXh0c29tZSB0ZXh0c29tZSB0ZXh0c29tZSB0ZXh0";
    let path_to_params = "/test/signature_parameters/";
    let mut store = MaterialStore::new(String::new());

    // setup will read, or populate required parameters for signing and verification
    let _ = setup(&mut store, Some(path_to_params)).unwrap();

    let signature_params = get_signature_params(&store, Some(path_to_params)).unwrap();
    let signature = sign(signature_params, data.as_bytes()).unwrap();

    let verification_params = get_verification_params(&store, Some(path_to_params)).unwrap();
    let is_verified = verify(verification_params, data.as_bytes(), signature).unwrap();

    assert!(is_verified);
}

#[test]
fn tests_signing_alternative() {
    let data = "c29tZSB0ZXh0c29tZSB0ZXh0c29tZSB0ZXh0c29tZSB0ZXh0c29tZSB0ZXh0c29tZSB0ZXh0c29tZSB0ZXh0c29tZSB0ZXh0c29tZSB0ZXh0c29tZSB0ZXh0c29tZSB0ZXh0c29tZSB0ZXh0c29tZSB0ZXh0c29tZSB0ZXh0c29tZSB0ZXh0c29tZSB0ZXh0c29tZSB0ZXh0c29tZSB0ZXh0c29tZSB0ZXh0c29tZSB0ZXh0c29tZSB0ZXh0c29tZSB0ZXh0c29tZSB0ZXh0c29tZSB0ZXh0c29tZSB0ZXh0c29tZSB0ZXh0c29tZSB0ZXh0c29tZSB0ZXh0c29tZSB0ZXh0c29tZSB0ZXh0c29tZSB0ZXh0c29tZSB0ZXh0c29tZSB0ZXh0c29tZSB0ZXh0";
    let path_to_params = "/test/signature_parameters/";
    let mut store = MaterialStore::new(String::new());

    let (signature_params, verification_params) = setup(&mut store, Some(path_to_params)).unwrap();

    let signature = sign(signature_params, data.as_bytes()).unwrap();

    let is_verified = verify(verification_params, data.as_bytes(), signature).unwrap();

    assert!(is_verified);
}

#[test]
fn signature_over_different_message_is_refused() {
    let mut store = MaterialStore::new(String::new());
    let (signature_params, verification_params) = setup(&mut store, Some("/other/")).unwrap();
    let signature = sign(signature_params, "message one".as_bytes()).unwrap();
    let is_verified = verify(verification_params, "message two".as_bytes(), signature).unwrap();
    assert!(!is_verified);
}

#[test]
fn get_or_create_keeps_first_value() {
    let mut store = MaterialStore::new(String::new());
    let first = get_or_create_value_at_path(&mut store, "/v/.dsa_p", "123").unwrap();
    let second = get_or_create_value_at_path(&mut store, "/v/.dsa_p", "456").unwrap();
    assert_eq!(first, "123");
    assert_eq!(second, "123");
}

#[test]
fn big_number_parsing() {
    assert!(crypto_ext::signing::get_big_number("123456789012345678901234567890").is_ok());
    assert!(crypto_ext::signing::get_big_number("not a number").is_err());
}

#[test]
fn component_with_zero_byte_is_rejected() {
    let mut store = MaterialStore::new(String::new());
    let (mut signature_params, verification_params) = setup(&mut store, Some("/nul/")).unwrap();
    signature_params.dsa_q = "1\u{0}2".to_string();
    assert!(sign(signature_params, "data".as_bytes()).is_err());
    let mut tampered = crypto_ext::signing::VerificationParameters {
        dsa_p: verification_params.dsa_p,
        dsa_q: verification_params.dsa_q,
        dsa_g: verification_params.dsa_g,
        dsa_public_key: verification_params.dsa_public_key,
    };
    tampered.dsa_g = "\u{0}".to_string();
    assert!(verify(tampered, "data".as_bytes(), vec![1, 2, 3]).is_err());
}

#[test]
fn component_that_is_no_numeral_is_rejected() {
    let mut store = MaterialStore::new(String::new());
    let (mut signature_params, _) = setup(&mut store, Some("/text/")).unwrap();
    signature_params.dsa_private_key = "not a number".to_string();
    assert!(sign(signature_params, "data".as_bytes()).is_err());
}
