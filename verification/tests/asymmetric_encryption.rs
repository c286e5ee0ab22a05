use crypto_ext::store::MaterialStore;
use crypto_ext::asymmetric::encryption::{decrypt, encrypt, get_decryption_params, get_encryption_params, setup};

#[test]
fn encryption() {
    //maximum 501 bytes at once to be encrypted
    let data_to_encrypt_as_bytes = "Some data to encrypt".as_bytes();

    let params_path = "/test/encryption_parameters/";
    let mut store = MaterialStore::new(String::new());
    // it will read encryption params like public, private keys and passphrase or create them
    let _ = setup(&mut store, Some(params_path));

    let encryption_params = get_encryption_params(&store, Some(params_path)).unwrap();
    let encrypted_bytes = encrypt(encryption_params, data_to_encrypt_as_bytes).unwrap();

    let decryption_params = get_decryption_params(&mut store, Some(params_path)).unwrap();
    let decrypted_bytes = decrypt(decryption_params, encrypted_bytes.as_slice()).unwrap();

    assert_eq!(data_to_encrypt_as_bytes, decrypted_bytes);
}

#[test]
fn encryption_alternative() {
    // maximum 501 bytes at once to be encrypted
    let data_to_encrypt_as_bytes = "Some data to encrypt".as_bytes();

    let params_path = "/test/encryption_parameters/";
    let mut store = MaterialStore::new(String::new());
    // this will create encryption params like public, private keys and passphrase
    let (encryption_params, decryption_params) = setup(&mut store, Some(params_path)).unwrap();

    let encrypted_bytes = encrypt(encryption_params, data_to_encrypt_as_bytes).unwrap();
    let decrypted_bytes = decrypt(decryption_params, encrypted_bytes.as_slice()).unwrap();

    assert_eq!(data_to_encrypt_as_bytes, decrypted_bytes);
}

#[test]
fn hello_scenario() {
    let mut store = MaterialStore::new(String::new());
    let (encryption_params, decryption_params) = setup(&mut store, Some("/tmp/k1/")).unwrap();
    let ciphertext = encrypt(encryption_params, "hello".as_bytes()).unwrap();
    assert_eq!(ciphertext.len(), 512);
    let recovered = decrypt(decryption_params, ciphertext.as_slice()).unwrap();
    assert_eq!(recovered, "hello".as_bytes());
}

#[test]
fn oversized_plaintext_is_rejected() {
    let mut store = MaterialStore::new(String::new());
    let (encryption_params, _) = setup(&mut store, Some("/limit/")).unwrap();
    let oversized = vec![7u8; 502];
    assert!(encrypt(encryption_params, oversized.as_slice()).is_err());
}

#[test]
fn rsa_setup_twice_returns_identical_material() {
    let mut store = MaterialStore::new(String::new());
    let (first_enc, first_dec) = setup(&mut store, Some("/twice/")).unwrap();
    let (second_enc, second_dec) = setup(&mut store, Some("/twice/")).unwrap();
    assert_eq!(first_enc.rsa_public_key_pem, second_enc.rsa_public_key_pem);
    assert_eq!(first_dec.rsa_private_key_pem, second_dec.rsa_private_key_pem);
    assert_eq!(first_dec.rsa_passphrase, second_dec.rsa_passphrase);
}

#[test]
fn missing_public_key_is_not_found() {
    let store = MaterialStore::new(String::new());
    assert!(get_encryption_params(&store, Some("/nowhere/")).is_err());
}

#[test]
fn wrong_passphrase_fails_decryption() {
    let mut store = MaterialStore::new(String::new());
    let (encryption_params, decryption_params) = setup(&mut store, Some("/mismatch/")).unwrap();
    let ciphertext = encrypt(encryption_params, "secret".as_bytes()).unwrap();
    let tampered = crypto_ext::asymmetric::encryption::DecryptionParameters {
        rsa_passphrase: "0000000000000000000000000000000000000000000000000000000000000000".to_string(),
        rsa_private_key_pem: decryption_params.rsa_private_key_pem,
    };
    assert!(decrypt(tampered, ciphertext.as_slice()).is_err());
}

#[test]
fn encryption_at_maximum_size() {
    let params_path = "/test/encryption_parameters/";
    let mut store = MaterialStore::new(String::new());
    // it will read encryption params like public, private keys and passphrase or create them
    let _ = setup(&mut store, Some(params_path));

    let params = get_encryption_params(&store, Some(params_path)).unwrap();

    //maximum 501 bytes at once to be encrypted
    let data = "Some random textSome random textSome random textSome random textSome random textSome random textSome random textSomeeSome random textSome random textSome random textSome random textSome random textSome random textSome random textSomeeSome random textSome random textSome random textSome random textSome random textSome random textSome random textSomeeSome random textSome random textSome random textSome random textSome random textSome random textSome random textSomee123textSomee123textSomee123textSo";
    println!("data len: {}", data.as_bytes().len());
    let encrypted_u8 = encrypt(params, data.as_bytes()).unwrap();

    let params = get_decryption_params(&mut store, Some(params_path)).unwrap();
    let decrypted_u8 = decrypt(params, encrypted_u8.as_ref()).unwrap();

    let decrypted = String::from_utf8(decrypted_u8).unwrap();

    assert_eq!(data.to_string(), decrypted.replace('\0', ""));
}

#[test]
fn passphrase_with_zero_byte_is_rejected() {
    let mut store = MaterialStore::new(String::new());
    let (encryption_params, decryption_params) = setup(&mut store, Some("/zero/")).unwrap();
    let ciphertext = encrypt(encryption_params, "secret".as_bytes()).unwrap();
    let tampered = crypto_ext::asymmetric::encryption::DecryptionParameters {
        rsa_passphrase: "a\u{0}b".to_string(),
        rsa_private_key_pem: decryption_params.rsa_private_key_pem,
    };
    assert!(decrypt(tampered, ciphertext.as_slice()).is_err());
}
