//! Authenticated symmetric encryption: a 16-byte key and 12-byte nonce are
//! carved out of one generated passphrase, persisted through the material
//! store, and used for 128-bit authenticated encryption with associated data.

use vstd::prelude::*;
use vstd::utf8::{encode_utf8, valid_utf8};

use aes_gcm::aead::generic_array::GenericArray;
use aes_gcm::aead::{Aead, KeyInit, Payload};
use aes_gcm::Aes128Gcm;

use crate::encoding::bytes_to_string;
use crate::passphrase::{generate_passphrase, is_passphrase};
use crate::store::{adds_at_most, preserves_existing, touches_only, MaterialStore};
use crate::{get_path_relative_to_working_directory, opt_str_view, rel_path};

verus! {

/// Where the symmetric key lives under the given working directory and base.
pub open spec fn aes_key_path(wd: Seq<char>, base: Option<Seq<char>>) -> Seq<char> {
    wd + rel_path(base, ".aes_key"@)
}

/// Where the nonce lives under the given working directory and base.
pub open spec fn aes_nonce_path(wd: Seq<char>, base: Option<Seq<char>>) -> Seq<char> {
    wd + rel_path(base, ".aes_nonce"@)
}

/// EncryptionParameters is basically the key and nonce.
pub struct EncryptionParameters {
    pub key: String,
    pub nonce: String,
}

/// DecryptionParameters is basically the key and nonce.
pub struct DecryptionParameters {
    pub key: String,
    pub nonce: String,
}

/// The sealed message (ciphertext followed by the 16-byte authentication tag)
/// that AES-128-GCM produces; it depends on key, nonce, plaintext and
/// associated data alone.
pub uninterp spec fn aead_seal(key: Seq<u8>, nonce: Seq<u8>, msg: Seq<u8>, aad: Seq<u8>) -> Seq<
    u8,
>;

/// What authenticated decryption recovers from a sealed input, or `None` when
/// the tag does not authenticate it; it depends on the arguments alone.
pub uninterp spec fn aead_open(key: Seq<u8>, nonce: Seq<u8>, sealed: Seq<u8>, aad: Seq<u8>) -> Option<
    Seq<u8>,
>;

/// Relies on `Aes128Gcm::encrypt` (the `aead::Aead` trait): deterministic in
/// key, nonce, message and associated data; it fails only when the message
/// or the associated data is longer than the cipher's bound of two to the
/// thirty-sixth bytes; the result is the ciphertext with a 16-byte tag
/// appended, and authenticated decryption under the same key, nonce and
/// associated data recovers exactly the message.
#[verifier::external_body]
fn aes128gcm_encrypt(key: &[u8], nonce: &[u8], msg: &[u8], aad: &[u8]) -> (r: Result<
    Vec<u8>,
    String,
>)
    requires
        key@.len() == 16,
        nonce@.len() == 12,
    ensures
        msg@.len() <= 0x1000000000 && aad@.len() <= 0x1000000000 ==> r is Ok,
        r matches Ok(c) ==> c@ == aead_seal(key@, nonce@, msg@, aad@),
        r matches Ok(c) ==> c@.len() == msg@.len() + 16,
        r matches Ok(c) ==> aead_open(key@, nonce@, c@, aad@) == Some(msg@),
{
    let cipher = Aes128Gcm::new(GenericArray::from_slice(key));
    let payload = Payload { msg, aad };
    cipher.encrypt(GenericArray::from_slice(nonce), payload).map_err(|e| e.to_string())
}

/// Relies on `Aes128Gcm::decrypt` (the `aead::Aead` trait): succeeds exactly
/// when the tag authenticates the input under this key, nonce and associated
/// data, and then returns the plaintext whose sealing is the input itself.
#[verifier::external_body]
fn aes128gcm_decrypt(key: &[u8], nonce: &[u8], sealed: &[u8], aad: &[u8]) -> (r: Result<
    Vec<u8>,
    String,
>)
    requires
        key@.len() == 16,
        nonce@.len() == 12,
    ensures
        r is Ok <==> aead_open(key@, nonce@, sealed@, aad@) is Some,
        r matches Ok(p) ==> aead_open(key@, nonce@, sealed@, aad@) == Some(p@),
        r matches Ok(p) ==> sealed@ == aead_seal(key@, nonce@, p@, aad@),
{
    let cipher = Aes128Gcm::new(GenericArray::from_slice(key));
    let payload = Payload { msg: sealed, aad };
    cipher.decrypt(GenericArray::from_slice(nonce), payload).map_err(|e| e.to_string())
}

/// Reads or creates the symmetric key and nonce under the given location.
/// A fresh pair is carved from one generated passphrase: the key is its tail
/// 16 characters, the nonce the 12 characters before them. Existing material
/// wins over the fresh pair and is never overwritten.
pub fn setup(store: &mut MaterialStore, path_to_encryption_parameters: Option<&str>) -> (r: Result<
    (EncryptionParameters, DecryptionParameters),
    String,
>)
    requires
        old(store).wf(),
    ensures
        final(store).wf(),
        final(store).working_dir() == old(store).working_dir(),
        preserves_existing(old(store).contents(), final(store).contents()),
        touches_only(
            old(store).contents(),
            final(store).contents(),
            set![
                aes_key_path(old(store).working_dir(), opt_str_view(path_to_encryption_parameters)),
                aes_nonce_path(
                    old(store).working_dir(),
                    opt_str_view(path_to_encryption_parameters),
                ),
            ],
        ),
        adds_at_most(
            old(store).contents(),
            final(store).contents(),
            set![
                aes_key_path(old(store).working_dir(), opt_str_view(path_to_encryption_parameters)),
                aes_nonce_path(
                    old(store).working_dir(),
                    opt_str_view(path_to_encryption_parameters),
                ),
            ],
        ),
        old(store).contents().contains_key(
            aes_key_path(old(store).working_dir(), opt_str_view(path_to_encryption_parameters)),
        ) && old(store).contents().contains_key(
            aes_nonce_path(old(store).working_dir(), opt_str_view(path_to_encryption_parameters)),
        ) ==> final(store).contents() == old(store).contents(),
        r matches Ok(pair) ==> {
            let kp = aes_key_path(
                old(store).working_dir(),
                opt_str_view(path_to_encryption_parameters),
            );
            let np = aes_nonce_path(
                old(store).working_dir(),
                opt_str_view(path_to_encryption_parameters),
            );
            &&& pair.1.key@ == pair.0.key@
            &&& pair.1.nonce@ == pair.0.nonce@
            &&& final(store).contents().contains_key(kp)
            &&& final(store).contents().contains_key(np)
            &&& encode_utf8(pair.0.key@) == final(store).contents()[kp]
            &&& encode_utf8(pair.0.nonce@) == final(store).contents()[np]
        },
        ({
            let kp = aes_key_path(
                old(store).working_dir(),
                opt_str_view(path_to_encryption_parameters),
            );
            let np = aes_nonce_path(
                old(store).working_dir(),
                opt_str_view(path_to_encryption_parameters),
            );
            r matches Ok(pair) ==> !old(store).contents().contains_key(kp) && !old(store).contents().contains_key(np) ==> {
                &&& pair.0.key@.len() == 16
                &&& pair.0.nonce@.len() == 12
                &&& encode_utf8(pair.0.key@).len() == 16
                &&& encode_utf8(pair.0.nonce@).len() == 12
                &&& exists|p: Seq<char>|
                    #[trigger] is_passphrase(p) && pair.0.key@ == p.subrange(48, 64)
                        && pair.0.nonce@ == p.subrange(36, 48)
            }
        }),
{
    let ghost wd = store.working_dir();
    let ghost base = opt_str_view(path_to_encryption_parameters);
    let ghost pre = store.contents();
    proof {
        reveal_strlit(".aes_key");
        reveal_strlit(".aes_nonce");
        assert(aes_key_path(wd, base).len() != aes_nonce_path(wd, base).len());
    }
    let passphrase_64_bytes = match generate_passphrase() {
        Ok(p) => p,
        Err(message) => {
            return Err(message);
        },
    };
    // key is 16 characters long
    let aes_key = String::from_str(passphrase_64_bytes.as_str().substring_char(48, 64));
    // nonce is 12 characters long
    let aes_nonce = String::from_str(passphrase_64_bytes.as_str().substring_char(36, 48));
    let ghost fresh_key_chars = aes_key@;
    let ghost fresh_nonce_chars = aes_nonce@;

    let relative_path = get_path_relative_to_working_directory(
        path_to_encryption_parameters,
        ".aes_key",
    );
    let aes_key_file = match store.get_static_filepath(relative_path.as_str()) {
        Ok(p) => p,
        Err(message) => {
            return Err(message);
        },
    };
    proof {
        assert(aes_key_file@ == aes_key_path(wd, base));
        crate::passphrase::lemma_hex_chars_ascii(aes_key@);
        vstd::utf8::is_ascii_chars_encode_utf8(aes_key@);
        vstd::utf8::encode_utf8_valid_utf8(aes_key@);
    }
    let stored_key = match store.read_or_create_and_write(
        aes_key_file.as_str(),
        aes_key.as_str().as_bytes(),
    ) {
        Ok(v) => v,
        Err(message) => {
            return Err(message);
        },
    };
    let aes_key = match bytes_to_string(stored_key) {
        Ok(s) => s,
        Err(message) => {
            return Err(message);
        },
    };
    proof {
        vstd::utf8::encode_utf8_decode_utf8(aes_key@);
        vstd::utf8::encode_utf8_decode_utf8(fresh_key_chars);
    }

    let relative_path = get_path_relative_to_working_directory(
        path_to_encryption_parameters,
        ".aes_nonce",
    );
    let aes_nonce_file = match store.get_static_filepath(relative_path.as_str()) {
        Ok(p) => p,
        Err(message) => {
            return Err(message);
        },
    };
    proof {
        assert(aes_nonce_file@ == aes_nonce_path(wd, base));
        crate::passphrase::lemma_hex_chars_ascii(aes_nonce@);
        vstd::utf8::is_ascii_chars_encode_utf8(aes_nonce@);
        vstd::utf8::encode_utf8_valid_utf8(aes_nonce@);
    }
    let stored_nonce = match store.read_or_create_and_write(
        aes_nonce_file.as_str(),
        aes_nonce.as_str().as_bytes(),
    ) {
        Ok(v) => v,
        Err(message) => {
            return Err(message);
        },
    };
    let aes_nonce = match bytes_to_string(stored_nonce) {
        Ok(s) => s,
        Err(message) => {
            return Err(message);
        },
    };
    proof {
        vstd::utf8::encode_utf8_decode_utf8(aes_nonce@);
        vstd::utf8::encode_utf8_decode_utf8(fresh_nonce_chars);
        if !pre.contains_key(aes_key_path(wd, base)) && !pre.contains_key(
            aes_nonce_path(wd, base),
        ) {
            assert(aes_key@ == fresh_key_chars);
            assert(aes_nonce@ == fresh_nonce_chars);
            assert(is_passphrase(passphrase_64_bytes@));
        }
    }

    let encryption_params = EncryptionParameters {
        key: aes_key.clone(),
        nonce: aes_nonce.clone(),
    };
    let decryption_params = DecryptionParameters { key: aes_key, nonce: aes_nonce };

    Ok((encryption_params, decryption_params))
}

/// Returns the EncryptionParameters stored at the given location; fails when
/// either blob is absent or is not valid text.
pub fn get_encryption_params(
    store: &MaterialStore,
    path_to_encryption_parameters: Option<&str>,
) -> (r: Result<EncryptionParameters, String>)
    requires
        store.wf(),
    ensures
        ({
            let kp = aes_key_path(store.working_dir(), opt_str_view(path_to_encryption_parameters));
            let np = aes_nonce_path(
                store.working_dir(),
                opt_str_view(path_to_encryption_parameters),
            );
            &&& r is Ok <==> store.contents().contains_key(kp) && valid_utf8(store.contents()[kp])
                && store.contents().contains_key(np) && valid_utf8(store.contents()[np])
            &&& r matches Ok(params) ==> encode_utf8(params.key@) == store.contents()[kp]
                && encode_utf8(params.nonce@) == store.contents()[np]
        }),
{
    let relative_path = get_path_relative_to_working_directory(
        path_to_encryption_parameters,
        ".aes_key",
    );
    let aes_key_file = match store.get_static_filepath(relative_path.as_str()) {
        Ok(p) => p,
        Err(message) => {
            return Err(message);
        },
    };
    let key_bytes = match store.read_file(aes_key_file.as_str()) {
        Ok(v) => v,
        Err(message) => {
            return Err(message);
        },
    };
    let aes_key = match bytes_to_string(key_bytes) {
        Ok(s) => s,
        Err(message) => {
            return Err(message);
        },
    };

    let relative_path = get_path_relative_to_working_directory(
        path_to_encryption_parameters,
        ".aes_nonce",
    );
    let aes_nonce_file = match store.get_static_filepath(relative_path.as_str()) {
        Ok(p) => p,
        Err(message) => {
            return Err(message);
        },
    };
    let nonce_bytes = match store.read_file(aes_nonce_file.as_str()) {
        Ok(v) => v,
        Err(message) => {
            return Err(message);
        },
    };
    let aes_nonce = match bytes_to_string(nonce_bytes) {
        Ok(s) => s,
        Err(message) => {
            return Err(message);
        },
    };

    Ok(EncryptionParameters { key: aes_key, nonce: aes_nonce })
}

/// Returns the DecryptionParameters stored at the given location: in
/// symmetric encryption the same key and nonce serve both directions.
pub fn get_decryption_params(
    store: &MaterialStore,
    path_to_encryption_parameters: Option<&str>,
) -> (r: Result<DecryptionParameters, String>)
    requires
        store.wf(),
    ensures
        ({
            let kp = aes_key_path(store.working_dir(), opt_str_view(path_to_encryption_parameters));
            let np = aes_nonce_path(
                store.working_dir(),
                opt_str_view(path_to_encryption_parameters),
            );
            &&& r is Ok <==> store.contents().contains_key(kp) && valid_utf8(store.contents()[kp])
                && store.contents().contains_key(np) && valid_utf8(store.contents()[np])
            &&& r matches Ok(params) ==> encode_utf8(params.key@) == store.contents()[kp]
                && encode_utf8(params.nonce@) == store.contents()[np]
        }),
{
    let encryption_params = match get_encryption_params(store, path_to_encryption_parameters) {
        Ok(p) => p,
        Err(message) => {
            return Err(message);
        },
    };
    Ok(
        DecryptionParameters {
            key: encryption_params.key,
            nonce: encryption_params.nonce,
        },
    )
}

/// Seals the given message and binds the associated data under the key and
/// nonce of the parameters; fails when the key is not 16 bytes or the nonce
/// not 12 bytes of text.
pub fn encrypt(
    params: EncryptionParameters,
    data_to_encrypt: &[u8],
    associated_data: &[u8],
) -> (r: Result<Vec<u8>, String>)
    ensures
        r matches Ok(c) ==> encode_utf8(params.key@).len() == 16 && encode_utf8(
            params.nonce@,
        ).len() == 12,
        r matches Ok(c) ==> c@ == aead_seal(
            encode_utf8(params.key@),
            encode_utf8(params.nonce@),
            data_to_encrypt@,
            associated_data@,
        ),
        r matches Ok(c) ==> c@.len() == data_to_encrypt@.len() + 16,
        r matches Ok(c) ==> aead_open(
            encode_utf8(params.key@),
            encode_utf8(params.nonce@),
            c@,
            associated_data@,
        ) == Some(data_to_encrypt@),
        encode_utf8(params.key@).len() != 16 || encode_utf8(params.nonce@).len() != 12 ==> r is Err,
        encode_utf8(params.key@).len() == 16 && encode_utf8(params.nonce@).len() == 12
            && data_to_encrypt@.len() <= 0x1000000000 && associated_data@.len() <= 0x1000000000
            ==> r is Ok,
{
    let key = params.key.as_str().as_bytes();
    let nonce = params.nonce.as_str().as_bytes();
    if key.len() != 16 || nonce.len() != 12 {
        return Err(String::from_str("invalid key or nonce length"));
    }
    aes128gcm_encrypt(key, nonce, data_to_encrypt, associated_data)
}

/// Opens a sealed input under the key and nonce of the parameters; fails when
/// the key or nonce has the wrong size or the tag does not authenticate the
/// input together with the associated data.
pub fn decrypt(
    params: DecryptionParameters,
    encrypted_data: &[u8],
    associated_data: &[u8],
) -> (r: Result<Vec<u8>, String>)
    ensures
        encode_utf8(params.key@).len() == 16 && encode_utf8(params.nonce@).len() == 12 ==> (
        r is Ok <==> aead_open(
            encode_utf8(params.key@),
            encode_utf8(params.nonce@),
            encrypted_data@,
            associated_data@,
        ) is Some),
        r matches Ok(p) ==> aead_open(
            encode_utf8(params.key@),
            encode_utf8(params.nonce@),
            encrypted_data@,
            associated_data@,
        ) == Some(p@),
        r matches Ok(p) ==> encrypted_data@ == aead_seal(
            encode_utf8(params.key@),
            encode_utf8(params.nonce@),
            p@,
            associated_data@,
        ),
        encode_utf8(params.key@).len() != 16 || encode_utf8(params.nonce@).len() != 12 ==> r is Err,
{
    let key = params.key.as_str().as_bytes();
    let nonce = params.nonce.as_str().as_bytes();
    if key.len() != 16 || nonce.len() != 12 {
        return Err(String::from_str("invalid key or nonce length"));
    }
    aes128gcm_decrypt(key, nonce, encrypted_data, associated_data)
}

} // verus!
