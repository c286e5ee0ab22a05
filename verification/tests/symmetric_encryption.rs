use crypto_ext::store::MaterialStore;
use crypto_ext::symmetric::encryption::{decrypt, encrypt, get_decryption_params, get_encryption_params, setup};

#[test]
fn tests_encryption() {
    let data = "some data to encrypt".as_bytes();
    let associated_data = "some unencrypted data that needs to be sent along the encrypted data and won't be changed during transmission by a hacker".as_bytes();

    let params_path = "/test/encryption_parameters/";
    let mut store = MaterialStore::new(String::new());

    let (encryption_params, decryption_params) = setup(&mut store, Some(params_path)).unwrap();

    let encrypted_data = encrypt(encryption_params, data, associated_data).unwrap();

    let decrypted = decrypt(decryption_params, encrypted_data.as_slice(), associated_data).unwrap();

    assert_eq!(data, decrypted);
}

#[test]
fn decryption() {
    let data = "some data to encrypt".as_bytes();
    let associated_data = "some unencrypted data that needs to be sent along the encrypted data and won't be changed during transmission by a hacker".as_bytes();

    let params_path = "/test/encryption_parameters/";
    let mut store = MaterialStore::new(String::new());

    let _ = setup(&mut store, Some(params_path)).unwrap();

    let encryption_params = get_encryption_params(&store, Some(params_path)).unwrap();
    let encrypted_data = encrypt(encryption_params, data, associated_data).unwrap();

    let decryption_params = get_decryption_params(&store, Some(params_path)).unwrap();
    let decrypted = decrypt(decryption_params, encrypted_data.as_slice(), associated_data).unwrap();

    assert_eq!(data, decrypted);
}

#[test]
fn sealed_output_differs_from_plaintext() {
    let mut store = MaterialStore::new(String::new());
    let (encryption_params, _) = setup(&mut store, Some("/k/")).unwrap();
    let data = "plain".as_bytes();
    let sealed = encrypt(encryption_params, data, b"").unwrap();
    assert_eq!(sealed.len(), data.len() + 16);
    assert_ne!(&sealed[..data.len()], data);
}

#[test]
fn key_and_nonce_sizes() {
    let mut store = MaterialStore::new(String::new());
    let (encryption_params, decryption_params) = setup(&mut store, Some("/sizes/")).unwrap();
    assert_eq!(encryption_params.key.as_bytes().len(), 16);
    assert_eq!(encryption_params.nonce.as_bytes().len(), 12);
    assert_eq!(decryption_params.key, encryption_params.key);
    assert_eq!(decryption_params.nonce, encryption_params.nonce);
}

#[test]
fn associated_data_scenario() {
    let mut store = MaterialStore::new(String::new());
    let (encryption_params, _) = setup(&mut store, Some("/aad/")).unwrap();
    assert_eq!(encryption_params.key.as_bytes().len(), 16);
    assert_eq!(encryption_params.nonce.as_bytes().len(), 12);
    let sealed = encrypt(encryption_params, "abc".as_bytes(), "x".as_bytes()).unwrap();
    let good = get_decryption_params(&store, Some("/aad/")).unwrap();
    let recovered = decrypt(good, sealed.as_slice(), "x".as_bytes()).unwrap();
    assert_eq!(recovered, "abc".as_bytes());
    let bad_aad = get_decryption_params(&store, Some("/aad/")).unwrap();
    assert!(decrypt(bad_aad, sealed.as_slice(), "y".as_bytes()).is_err());
}

#[test]
fn every_bit_flip_is_rejected() {
    let mut store = MaterialStore::new(String::new());
    let (encryption_params, _) = setup(&mut store, Some("/flip/")).unwrap();
    let aad = "context".as_bytes();
    let sealed = encrypt(encryption_params, "payload".as_bytes(), aad).unwrap();
    for position in 0..sealed.len() {
        for bit in 0..8 {
            let mut tampered = sealed.clone();
            tampered[position] ^= 1u8 << bit;
            let params = get_decryption_params(&store, Some("/flip/")).unwrap();
            assert!(decrypt(params, tampered.as_slice(), aad).is_err());
        }
    }
    let mut flipped_aad = aad.to_vec();
    flipped_aad[0] ^= 1;
    let params = get_decryption_params(&store, Some("/flip/")).unwrap();
    assert!(decrypt(params, sealed.as_slice(), flipped_aad.as_slice()).is_err());
}

#[test]
fn aead_setup_twice_returns_identical_material() {
    let mut store = MaterialStore::new(String::new());
    let (first_enc, first_dec) = setup(&mut store, Some("/twice/")).unwrap();
    let (second_enc, second_dec) = setup(&mut store, Some("/twice/")).unwrap();
    assert_eq!(first_enc.key, second_enc.key);
    assert_eq!(first_enc.nonce, second_enc.nonce);
    assert_eq!(first_dec.key, second_dec.key);
    assert_eq!(first_dec.nonce, second_dec.nonce);
}

#[test]
fn aead_missing_material_is_not_found() {
    let store = MaterialStore::new(String::new());
    assert!(get_encryption_params(&store, Some("/nowhere/")).is_err());
    assert!(get_decryption_params(&store, Some("/nowhere/")).is_err());
}

#[test]
fn stored_bytes_that_are_not_text_are_rejected() {
    let mut store = MaterialStore::new(String::new());
    let raw: [u8; 4] = [0xff, 0xfe, 0x00, 0x61];
    let _ = store.read_or_create_and_write("/bad/.aes_key", &raw).unwrap();
    assert!(get_encryption_params(&store, Some("/bad/")).is_err());
}
