//! Large-modulus public-key encryption: a passphrase-protected private key
//! and a clear-text public key are provisioned through the material store,
//! and data is transformed under PKCS#1 padding at a fixed modulus size.

use vstd::prelude::*;
use vstd::utf8::{encode_utf8, valid_utf8};

use openssl::rsa::{Padding, Rsa};
use openssl::symm::Cipher;

use crate::encoding::{
    bytes_to_string, contains_zero_byte, has_zero_byte, strip_trailing_zero_bytes,
    strip_trailing_zeros, lemma_strip_trailing_zeros_id, lemma_strip_trailing_zeros_pad,
};
use crate::passphrase::{generate_passphrase, is_passphrase, lemma_hex_chars_ascii};
use crate::store::{adds_at_most, preserves_existing, touches_only, MaterialStore};
use crate::{
    get_path_relative_to_working_directory, lemma_distinct_names_distinct_paths, opt_str_view,
    rel_path,
};

verus! {

/// Modulus size of every freshly generated key pair, in bits.
const RSA_SIZE: u32 = 4096;

/// Where the passphrase lives under the given working directory and base.
pub open spec fn rsa_passphrase_path(wd: Seq<char>, base: Option<Seq<char>>) -> Seq<char> {
    wd + rel_path(base, ".rsa_passphrase"@)
}

/// Where the public key lives under the given working directory and base.
pub open spec fn rsa_public_key_path(wd: Seq<char>, base: Option<Seq<char>>) -> Seq<char> {
    wd + rel_path(base, ".rsa_public_key"@)
}

/// Where the private key lives under the given working directory and base.
pub open spec fn rsa_private_key_path(wd: Seq<char>, base: Option<Seq<char>>) -> Seq<char> {
    wd + rel_path(base, ".rsa_private_key"@)
}

/// EncryptionParameters is basically a public key.
pub struct EncryptionParameters {
    pub rsa_public_key_pem: String,
}

/// DecryptionParameters is basically a private key and passphrase.
pub struct DecryptionParameters {
    pub rsa_passphrase: String,
    pub rsa_private_key_pem: String,
}

/// Whether the clear-text public encoding and the passphrase-encrypted
/// private encoding describe the two halves of one key pair, the private
/// half sealed under the given passphrase.
pub uninterp spec fn rsa_key_pair(
    public_pem: Seq<char>,
    private_pem: Seq<char>,
    passphrase: Seq<char>,
) -> bool;

/// The modulus size in bytes that the public encoding carries; it depends on
/// the encoding alone.
pub uninterp spec fn rsa_size(public_pem: Seq<char>) -> nat;

/// What the padded private-key transform recovers from a ciphertext, without
/// the zero padding of the output buffer, or `None` when the private encoding
/// does not parse under the passphrase or the ciphertext is rejected; it
/// depends on the arguments alone.
pub uninterp spec fn rsa_open(
    private_pem: Seq<char>,
    passphrase: Seq<char>,
    data: Seq<u8>,
) -> Option<Seq<u8>>;

/// Relies on `openssl::rsa::Rsa::generate`, `private_key_to_pem_passphrase`
/// and `public_key_to_pem`: a fresh pair at the fixed modulus size, the
/// private half encoded under the passphrase (AES-128-CBC), the public half
/// in clear text; its modulus is 512 bytes, and what the public half
/// encrypts the private half recovers. Both encodings of a key at this
/// fixed size are a few kilobytes, far below the binding's length cap. The
/// binding aborts on a passphrase longer than that cap, so such input is
/// excluded here and rejected by the caller.
#[verifier::external_body]
fn rsa_generate_key_pair(passphrase: &str) -> (r: Result<(String, String), String>)
    requires
        encode_utf8(passphrase@).len() <= 0x7fffffff,
    ensures
        r matches Ok(keys) ==> rsa_key_pair(keys.1@, keys.0@, passphrase@),
        r matches Ok(keys) ==> rsa_size(keys.1@) == 512,
        r matches Ok(keys) ==> encode_utf8(keys.0@).len() <= 0x7fffffff && encode_utf8(
            keys.1@,
        ).len() <= 0x7fffffff,
{
    let rsa = Rsa::generate(RSA_SIZE).map_err(|e| e.to_string())?;
    let private_pem = rsa
        .private_key_to_pem_passphrase(Cipher::aes_128_cbc(), passphrase.as_bytes())
        .map_err(|e| e.to_string())?;
    let public_pem = rsa.public_key_to_pem().map_err(|e| e.to_string())?;
    let private_key = String::from_utf8(private_pem).map_err(|e| e.to_string())?;
    let public_key = String::from_utf8(public_pem).map_err(|e| e.to_string())?;
    Ok((private_key, public_key))
}

/// Relies on `openssl::rsa::Rsa::public_key_from_pem` and `public_encrypt`
/// with PKCS#1 padding: the ciphertext fills exactly the modulus size, the
/// plaintext must leave eleven bytes of padding room, and any matching
/// private half recovers the plaintext. The binding aborts on an encoding or
/// plaintext longer than its length cap, so such input is excluded here and
/// rejected by the caller.
#[verifier::external_body]
fn rsa_public_encrypt(public_key_pem: &str, data: &[u8]) -> (r: Result<Vec<u8>, String>)
    requires
        encode_utf8(public_key_pem@).len() <= 0x7fffffff,
        data@.len() <= 0x7fffffff,
    ensures
        r matches Ok(c) ==> c@.len() == rsa_size(public_key_pem@),
        r matches Ok(c) ==> data@.len() + 11 <= rsa_size(public_key_pem@),
        r matches Ok(c) ==> forall|private_pem: Seq<char>, pass: Seq<char>|
            rsa_key_pair(public_key_pem@, private_pem, pass) ==> rsa_open(private_pem, pass, c@)
                == Some(data@),
{
    let rsa = Rsa::public_key_from_pem(public_key_pem.as_bytes()).map_err(|e| e.to_string())?;
    let mut buffer: Vec<u8> = vec![0; rsa.size() as usize];
    rsa.public_encrypt(data, &mut buffer, Padding::PKCS1).map_err(|e| e.to_string())?;
    Ok(buffer)
}

/// Relies on `openssl::rsa::Rsa::private_key_from_pem_passphrase` and
/// `private_decrypt` with PKCS#1 padding: succeeds exactly when the private
/// encoding parses under the passphrase and the ciphertext is accepted, and
/// then fills a modulus-sized buffer with the recovered plaintext followed by
/// zeros. The binding aborts on a passphrase holding a zero byte and on an
/// encoding or ciphertext longer than its length cap, so such input is
/// excluded here and rejected by the caller.
#[verifier::external_body]
fn rsa_private_decrypt(private_key_pem: &str, passphrase: &str, data: &[u8]) -> (r: Result<
    Vec<u8>,
    String,
>)
    requires
        encode_utf8(private_key_pem@).len() <= 0x7fffffff,
        !has_zero_byte(encode_utf8(passphrase@)),
        data@.len() <= 0x7fffffff,
    ensures
        r is Ok <==> rsa_open(private_key_pem@, passphrase@, data@) is Some,
        r matches Ok(buffer) ==> rsa_open(private_key_pem@, passphrase@, data@) matches Some(
            recovered,
        ) && recovered.len() <= buffer@.len() && buffer@.subrange(0, recovered.len() as int)
            == recovered && (forall|i: int|
            recovered.len() <= i < buffer@.len() ==> buffer@[i] == 0),
{
    let rsa = Rsa::private_key_from_pem_passphrase(private_key_pem.as_bytes(), passphrase.as_bytes())
        .map_err(|e| e.to_string())?;
    let mut buffer: Vec<u8> = vec![0; rsa.size() as usize];
    rsa.private_decrypt(data, &mut buffer, Padding::PKCS1).map_err(|e| e.to_string())?;
    Ok(buffer)
}

fn get_or_create_passphrase(store: &mut MaterialStore, path: &String) -> (r: Result<String, String>)
    requires
        old(store).wf(),
    ensures
        final(store).wf(),
        final(store).working_dir() == old(store).working_dir(),
        preserves_existing(old(store).contents(), final(store).contents()),
        touches_only(old(store).contents(), final(store).contents(), set![path@]),
        adds_at_most(old(store).contents(), final(store).contents(), set![path@]),
        r matches Ok(p) ==> final(store).contents().contains_key(path@) && encode_utf8(p@)
            == final(store).contents()[path@],
        r matches Ok(p) ==> !old(store).contents().contains_key(path@) ==> is_passphrase(p@),
        old(store).contents().contains_key(path@) ==> final(store).contents() == old(store).contents(),
        r is Err ==> final(store).contents() == old(store).contents(),
{
    let ghost pre = store.contents();
    let passphrase = match generate_passphrase() {
        Ok(p) => p,
        Err(message) => {
            return Err(message);
        },
    };
    let ghost fresh_chars = passphrase@;
    proof {
        lemma_hex_chars_ascii(passphrase@);
        vstd::utf8::encode_utf8_valid_utf8(passphrase@);
    }
    let stored = match store.read_or_create_and_write(
        path.as_str(),
        passphrase.as_str().as_bytes(),
    ) {
        Ok(v) => v,
        Err(message) => {
            return Err(message);
        },
    };
    let passphrase = match bytes_to_string(stored) {
        Ok(s) => s,
        Err(message) => {
            return Err(message);
        },
    };
    proof {
        vstd::utf8::encode_utf8_decode_utf8(passphrase@);
        vstd::utf8::encode_utf8_decode_utf8(fresh_chars);
        if pre.contains_key(path@) {
            assert(store.contents() =~= pre);
        }
    }
    Ok(passphrase)
}

fn get_or_create_private_public_keys(
    store: &mut MaterialStore,
    passphrase: &str,
    public_key_path: &String,
    private_key_path: &String,
) -> (r: Result<(String, String), String>)
    requires
        old(store).wf(),
        public_key_path@ != private_key_path@,
    ensures
        final(store).wf(),
        final(store).working_dir() == old(store).working_dir(),
        preserves_existing(old(store).contents(), final(store).contents()),
        touches_only(
            old(store).contents(),
            final(store).contents(),
            set![public_key_path@, private_key_path@],
        ),
        adds_at_most(
            old(store).contents(),
            final(store).contents(),
            set![public_key_path@, private_key_path@],
        ),
        r matches Ok(keys) ==> final(store).contents().contains_key(private_key_path@)
            && final(store).contents().contains_key(public_key_path@) && encode_utf8(keys.0@)
            == final(store).contents()[private_key_path@] && encode_utf8(keys.1@) == final(store).contents()[public_key_path@],
        old(store).contents().contains_key(private_key_path@) && old(
            store,
        ).contents().contains_key(public_key_path@) ==> final(store).contents() == old(
            store,
        ).contents(),
        r matches Ok(keys) ==> !old(store).contents().contains_key(private_key_path@) && !old(store).contents().contains_key(public_key_path@) ==> rsa_key_pair(
            keys.1@,
            keys.0@,
            passphrase@,
        ) && rsa_size(keys.1@) == 512 && encode_utf8(keys.0@).len() <= 0x7fffffff && encode_utf8(
            keys.1@,
        ).len() <= 0x7fffffff,
{
    let ghost pre = store.contents();
    if passphrase.as_bytes().len() > 0x7fffffff {
        return Err(String::from_str("passphrase is too long"));
    }
    let keys = match rsa_generate_key_pair(passphrase) {
        Ok(k) => k,
        Err(message) => {
            return Err(message);
        },
    };
    let (private_pem, public_pem) = keys;
    let ghost fresh_private = private_pem@;
    let ghost fresh_public = public_pem@;
    proof {
        vstd::utf8::encode_utf8_valid_utf8(private_pem@);
        vstd::utf8::encode_utf8_valid_utf8(public_pem@);
    }
    let stored_private = match store.read_or_create_and_write(
        private_key_path.as_str(),
        private_pem.as_str().as_bytes(),
    ) {
        Ok(v) => v,
        Err(message) => {
            return Err(message);
        },
    };
    let private_key = match bytes_to_string(stored_private) {
        Ok(s) => s,
        Err(message) => {
            return Err(message);
        },
    };
    let stored_public = match store.read_or_create_and_write(
        public_key_path.as_str(),
        public_pem.as_str().as_bytes(),
    ) {
        Ok(v) => v,
        Err(message) => {
            return Err(message);
        },
    };
    let public_key = match bytes_to_string(stored_public) {
        Ok(s) => s,
        Err(message) => {
            return Err(message);
        },
    };
    proof {
        vstd::utf8::encode_utf8_decode_utf8(private_key@);
        vstd::utf8::encode_utf8_decode_utf8(fresh_private);
        vstd::utf8::encode_utf8_decode_utf8(public_key@);
        vstd::utf8::encode_utf8_decode_utf8(fresh_public);
        if !pre.contains_key(private_key_path@) && !pre.contains_key(public_key_path@) {
            assert(private_key@ == fresh_private);
            assert(public_key@ == fresh_public);
        }
    }
    Ok((private_key, public_key))
}

/// Reads or creates a full parameter bundle at the given location: the
/// passphrase, the passphrase-encrypted private key and the clear public key,
/// each through the get-or-create store, so existing material always wins
/// over the freshly generated pair.
pub fn setup(store: &mut MaterialStore, path_to_encryption_parameters: Option<&str>) -> (r: Result<
    (EncryptionParameters, DecryptionParameters),
    String,
>)
    requires
        old(store).wf(),
    ensures
        final(store).wf(),
        final(store).working_dir() == old(store).working_dir(),
        preserves_existing(old(store).contents(), final(store).contents()),
        touches_only(
            old(store).contents(),
            final(store).contents(),
            set![
                rsa_passphrase_path(
                    old(store).working_dir(),
                    opt_str_view(path_to_encryption_parameters),
                ),
                rsa_public_key_path(
                    old(store).working_dir(),
                    opt_str_view(path_to_encryption_parameters),
                ),
                rsa_private_key_path(
                    old(store).working_dir(),
                    opt_str_view(path_to_encryption_parameters),
                ),
            ],
        ),
        adds_at_most(
            old(store).contents(),
            final(store).contents(),
            set![
                rsa_passphrase_path(
                    old(store).working_dir(),
                    opt_str_view(path_to_encryption_parameters),
                ),
                rsa_public_key_path(
                    old(store).working_dir(),
                    opt_str_view(path_to_encryption_parameters),
                ),
                rsa_private_key_path(
                    old(store).working_dir(),
                    opt_str_view(path_to_encryption_parameters),
                ),
            ],
        ),
        old(store).contents().contains_key(
            rsa_passphrase_path(
                old(store).working_dir(),
                opt_str_view(path_to_encryption_parameters),
            ),
        ) && old(store).contents().contains_key(
            rsa_public_key_path(
                old(store).working_dir(),
                opt_str_view(path_to_encryption_parameters),
            ),
        ) && old(store).contents().contains_key(
            rsa_private_key_path(
                old(store).working_dir(),
                opt_str_view(path_to_encryption_parameters),
            ),
        ) ==> final(store).contents() == old(store).contents(),
        r matches Ok(pair) ==> {
            let pp = rsa_passphrase_path(
                old(store).working_dir(),
                opt_str_view(path_to_encryption_parameters),
            );
            let pubp = rsa_public_key_path(
                old(store).working_dir(),
                opt_str_view(path_to_encryption_parameters),
            );
            let privp = rsa_private_key_path(
                old(store).working_dir(),
                opt_str_view(path_to_encryption_parameters),
            );
            &&& final(store).contents().contains_key(pp)
            &&& final(store).contents().contains_key(pubp)
            &&& final(store).contents().contains_key(privp)
            &&& encode_utf8(pair.1.rsa_passphrase@) == final(store).contents()[pp]
            &&& encode_utf8(pair.0.rsa_public_key_pem@) == final(store).contents()[pubp]
            &&& encode_utf8(pair.1.rsa_private_key_pem@) == final(store).contents()[privp]
        },
        r matches Ok(pair) ==> {
            let pp = rsa_passphrase_path(
                old(store).working_dir(),
                opt_str_view(path_to_encryption_parameters),
            );
            let pubp = rsa_public_key_path(
                old(store).working_dir(),
                opt_str_view(path_to_encryption_parameters),
            );
            let privp = rsa_private_key_path(
                old(store).working_dir(),
                opt_str_view(path_to_encryption_parameters),
            );
            !old(store).contents().contains_key(pp) && !old(store).contents().contains_key(pubp)
                && !old(store).contents().contains_key(privp) ==> {
                &&& is_passphrase(pair.1.rsa_passphrase@)
                &&& rsa_key_pair(
                    pair.0.rsa_public_key_pem@,
                    pair.1.rsa_private_key_pem@,
                    pair.1.rsa_passphrase@,
                )
                &&& rsa_size(pair.0.rsa_public_key_pem@) == 512
                &&& encode_utf8(pair.1.rsa_private_key_pem@).len() <= 0x7fffffff
                &&& encode_utf8(pair.0.rsa_public_key_pem@).len() <= 0x7fffffff
            }
        },
{
    let ghost wd = store.working_dir();
    let ghost base = opt_str_view(path_to_encryption_parameters);
    let ghost pre = store.contents();
    proof {
        reveal_strlit(".rsa_passphrase");
        reveal_strlit(".rsa_public_key");
        reveal_strlit(".rsa_private_key");
        lemma_distinct_names_distinct_paths(
            wd,
            base,
            ".rsa_passphrase"@,
            ".rsa_public_key"@,
            6,
        );
        lemma_distinct_names_distinct_paths(
            wd,
            base,
            ".rsa_passphrase"@,
            ".rsa_private_key"@,
            0,
        );
        lemma_distinct_names_distinct_paths(
            wd,
            base,
            ".rsa_public_key"@,
            ".rsa_private_key"@,
            0,
        );
    }
    let relative_path = get_path_relative_to_working_directory(
        path_to_encryption_parameters,
        ".rsa_passphrase",
    );
    let passphrase_path = match store.get_static_filepath(relative_path.as_str()) {
        Ok(p) => p,
        Err(message) => {
            return Err(message);
        },
    };
    let passphrase = match get_or_create_passphrase(store, &passphrase_path) {
        Ok(p) => p,
        Err(message) => {
            return Err(message);
        },
    };

    let relative_path = get_path_relative_to_working_directory(
        path_to_encryption_parameters,
        ".rsa_public_key",
    );
    let public_key_path = match store.get_static_filepath(relative_path.as_str()) {
        Ok(p) => p,
        Err(message) => {
            return Err(message);
        },
    };

    let relative_path = get_path_relative_to_working_directory(
        path_to_encryption_parameters,
        ".rsa_private_key",
    );
    let private_key_path = match store.get_static_filepath(relative_path.as_str()) {
        Ok(p) => p,
        Err(message) => {
            return Err(message);
        },
    };

    let keys = match get_or_create_private_public_keys(
        store,
        passphrase.as_str(),
        &public_key_path,
        &private_key_path,
    ) {
        Ok(k) => k,
        Err(message) => {
            return Err(message);
        },
    };
    let (private_key, public_key) = keys;

    let encryption_params = EncryptionParameters { rsa_public_key_pem: public_key };
    let decryption_params = DecryptionParameters {
        rsa_passphrase: passphrase,
        rsa_private_key_pem: private_key,
    };
    Ok((encryption_params, decryption_params))
}

/// Returns the EncryptionParameters stored at the given location; fails when
/// the public key is absent or is not valid text.
pub fn get_encryption_params(
    store: &MaterialStore,
    path_to_encryption_parameters: Option<&str>,
) -> (r: Result<EncryptionParameters, String>)
    requires
        store.wf(),
    ensures
        ({
            let pubp = rsa_public_key_path(
                store.working_dir(),
                opt_str_view(path_to_encryption_parameters),
            );
            &&& r is Ok <==> store.contents().contains_key(pubp) && valid_utf8(
                store.contents()[pubp],
            )
            &&& r matches Ok(params) ==> encode_utf8(params.rsa_public_key_pem@)
                == store.contents()[pubp]
        }),
{
    let relative_path = get_path_relative_to_working_directory(
        path_to_encryption_parameters,
        ".rsa_public_key",
    );
    let public_key_path = match store.get_static_filepath(relative_path.as_str()) {
        Ok(p) => p,
        Err(message) => {
            return Err(message);
        },
    };
    let public_key_bytes = match store.read_file(public_key_path.as_str()) {
        Ok(v) => v,
        Err(message) => {
            return Err(message);
        },
    };
    let public_key = match bytes_to_string(public_key_bytes) {
        Ok(s) => s,
        Err(message) => {
            return Err(message);
        },
    };
    Ok(EncryptionParameters { rsa_public_key_pem: public_key })
}

/// Returns the DecryptionParameters stored at the given location: the
/// passphrase file is re-derived or created, then the private key is read.
/// When the private key exists but the passphrase file does not, a fresh and
/// necessarily mismatched passphrase is stored beside it.
pub fn get_decryption_params(
    store: &mut MaterialStore,
    path_to_encryption_parameters: Option<&str>,
) -> (r: Result<DecryptionParameters, String>)
    requires
        old(store).wf(),
    ensures
        final(store).wf(),
        final(store).working_dir() == old(store).working_dir(),
        preserves_existing(old(store).contents(), final(store).contents()),
        touches_only(
            old(store).contents(),
            final(store).contents(),
            set![
                rsa_passphrase_path(
                    old(store).working_dir(),
                    opt_str_view(path_to_encryption_parameters),
                ),
            ],
        ),
        adds_at_most(
            old(store).contents(),
            final(store).contents(),
            set![
                rsa_passphrase_path(
                    old(store).working_dir(),
                    opt_str_view(path_to_encryption_parameters),
                ),
            ],
        ),
        r matches Ok(params) ==> {
            let pp = rsa_passphrase_path(
                old(store).working_dir(),
                opt_str_view(path_to_encryption_parameters),
            );
            let privp = rsa_private_key_path(
                old(store).working_dir(),
                opt_str_view(path_to_encryption_parameters),
            );
            &&& final(store).contents().contains_key(pp)
            &&& encode_utf8(params.rsa_passphrase@) == final(store).contents()[pp]
            &&& old(store).contents().contains_key(privp)
            &&& encode_utf8(params.rsa_private_key_pem@) == old(store).contents()[privp]
        },
        !old(store).contents().contains_key(
            rsa_private_key_path(
                old(store).working_dir(),
                opt_str_view(path_to_encryption_parameters),
            ),
        ) ==> r is Err,
        old(store).contents().contains_key(
            rsa_passphrase_path(
                old(store).working_dir(),
                opt_str_view(path_to_encryption_parameters),
            ),
        ) ==> final(store).contents() == old(store).contents(),
        r matches Ok(params) ==> !old(store).contents().contains_key(
            rsa_passphrase_path(
                old(store).working_dir(),
                opt_str_view(path_to_encryption_parameters),
            ),
        ) ==> is_passphrase(params.rsa_passphrase@),
{
    let ghost wd = store.working_dir();
    let ghost base = opt_str_view(path_to_encryption_parameters);
    proof {
        reveal_strlit(".rsa_passphrase");
        reveal_strlit(".rsa_private_key");
        lemma_distinct_names_distinct_paths(
            wd,
            base,
            ".rsa_passphrase"@,
            ".rsa_private_key"@,
            0,
        );
    }
    let relative_path = get_path_relative_to_working_directory(
        path_to_encryption_parameters,
        ".rsa_passphrase",
    );
    let passphrase_path = match store.get_static_filepath(relative_path.as_str()) {
        Ok(p) => p,
        Err(message) => {
            return Err(message);
        },
    };
    let passphrase = match get_or_create_passphrase(store, &passphrase_path) {
        Ok(p) => p,
        Err(message) => {
            return Err(message);
        },
    };

    let relative_path = get_path_relative_to_working_directory(
        path_to_encryption_parameters,
        ".rsa_private_key",
    );
    let private_key_path = match store.get_static_filepath(relative_path.as_str()) {
        Ok(p) => p,
        Err(message) => {
            return Err(message);
        },
    };
    let private_key_bytes = match store.read_file(private_key_path.as_str()) {
        Ok(v) => v,
        Err(message) => {
            return Err(message);
        },
    };
    let private_key = match bytes_to_string(private_key_bytes) {
        Ok(s) => s,
        Err(message) => {
            return Err(message);
        },
    };
    Ok(DecryptionParameters { rsa_passphrase: passphrase, rsa_private_key_pem: private_key })
}

/// Encrypts the given data under the public key of the parameters. Oversized
/// input is an error; the plaintext must leave eleven bytes of padding room
/// inside the modulus; the ciphertext fills the modulus exactly, and every
/// matching private half recovers the plaintext from it.
pub fn encrypt(params: EncryptionParameters, data: &[u8]) -> (r: Result<Vec<u8>, String>)
    ensures
        r matches Ok(c) ==> c@.len() == rsa_size(params.rsa_public_key_pem@),
        r matches Ok(c) ==> data@.len() + 11 <= rsa_size(params.rsa_public_key_pem@),
        r matches Ok(c) ==> forall|private_pem: Seq<char>, pass: Seq<char>|
            rsa_key_pair(params.rsa_public_key_pem@, private_pem, pass) ==> rsa_open(
                private_pem,
                pass,
                c@,
            ) == Some(data@),
        encode_utf8(params.rsa_public_key_pem@).len() > 0x7fffffff || data@.len() > 0x7fffffff
            ==> r is Err,
{
    if params.rsa_public_key_pem.as_str().as_bytes().len() > 0x7fffffff || data.len()
        > 0x7fffffff {
        return Err(String::from_str("input is too long"));
    }
    rsa_public_encrypt(params.rsa_public_key_pem.as_str(), data)
}

/// Decrypts the given ciphertext under the private key and passphrase of the
/// parameters and strips the trailing zero padding of the recovery buffer.
/// A passphrase holding a zero byte and oversized input are errors; within
/// those bounds the call succeeds exactly when the private encoding parses
/// under the passphrase and the ciphertext is accepted by the padded
/// transform.
pub fn decrypt(params: DecryptionParameters, data: &[u8]) -> (r: Result<Vec<u8>, String>)
    ensures
        encode_utf8(params.rsa_private_key_pem@).len() <= 0x7fffffff && !has_zero_byte(
            encode_utf8(params.rsa_passphrase@),
        ) && data@.len() <= 0x7fffffff ==> (r is Ok <==> rsa_open(
            params.rsa_private_key_pem@,
            params.rsa_passphrase@,
            data@,
        ) is Some),
        encode_utf8(params.rsa_private_key_pem@).len() > 0x7fffffff || has_zero_byte(
            encode_utf8(params.rsa_passphrase@),
        ) || data@.len() > 0x7fffffff ==> r is Err,
        r matches Ok(p) ==> rsa_open(
            params.rsa_private_key_pem@,
            params.rsa_passphrase@,
            data@,
        ) matches Some(recovered) && p@ == strip_trailing_zeros(recovered),
{
    if params.rsa_private_key_pem.as_str().as_bytes().len() > 0x7fffffff || data.len()
        > 0x7fffffff {
        return Err(String::from_str("input is too long"));
    }
    if contains_zero_byte(params.rsa_passphrase.as_str().as_bytes()) {
        return Err(String::from_str("passphrase holds a zero byte"));
    }
    let buffer = match rsa_private_decrypt(
        params.rsa_private_key_pem.as_str(),
        params.rsa_passphrase.as_str(),
        data,
    ) {
        Ok(b) => b,
        Err(message) => {
            return Err(message);
        },
    };
    proof {
        let recovered = rsa_open(
            params.rsa_private_key_pem@,
            params.rsa_passphrase@,
            data@,
        )->Some_0;
        lemma_strip_trailing_zeros_pad(recovered, buffer@);
    }
    Ok(strip_trailing_zero_bytes(buffer))
}

/// Round trip of the public-key scheme: a ciphertext that the public half
/// produced for a message is recovered by every matching private half, and
/// stripping the zero padding returns the message exactly whenever the
/// message does not itself end in a zero byte.
pub proof fn lemma_rsa_round_trip(
    public_pem: Seq<char>,
    private_pem: Seq<char>,
    passphrase: Seq<char>,
    message: Seq<u8>,
    sealed: Seq<u8>,
)
    requires
        rsa_key_pair(public_pem, private_pem, passphrase),
        forall|pv: Seq<char>, ps: Seq<char>|
            rsa_key_pair(public_pem, pv, ps) ==> rsa_open(pv, ps, sealed) == Some(message),
        message.len() == 0 || message.last() != 0,
    ensures
        rsa_open(private_pem, passphrase, sealed) == Some(message),
        strip_trailing_zeros(rsa_open(private_pem, passphrase, sealed)->Some_0) == message,
{
    assert(rsa_open(private_pem, passphrase, sealed) == Some(message));
    lemma_strip_trailing_zeros_id(message);
}

} // verus!
