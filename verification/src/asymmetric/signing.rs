//! Elliptic-curve signing: a raw scalar private key and an uncompressed
//! public point are provisioned through the material store and used for
//! randomized-keypair, deterministic-signature ECDSA over P-256.

use vstd::prelude::*;

use aes_gcm::aead::rand_core::OsRng;
use p256::ecdsa::signature::{Signer, Verifier};
use p256::ecdsa::{Signature, SigningKey, VerifyingKey};
use p256::EncodedPoint;

use crate::store::{adds_at_most, preserves_existing, touches_only, MaterialStore};
use crate::{
    get_path_relative_to_working_directory, lemma_distinct_names_distinct_paths, opt_str_view,
    rel_path,
};

verus! {

/// Where the private key lives under the given working directory and base.
pub open spec fn ecdsa_private_key_file(wd: Seq<char>, base: Option<Seq<char>>) -> Seq<char> {
    wd + rel_path(base, ".ecdsa_private_key.der"@)
}

/// Where the public key lives under the given working directory and base.
pub open spec fn ecdsa_public_key_file(wd: Seq<char>, base: Option<Seq<char>>) -> Seq<char> {
    wd + rel_path(base, ".ecdsa_public_key.der"@)
}

/// SignatureParameters is basically the encoded ECDSA private key.
pub struct SignatureParameters {
    pub ecdsa_private_key: Vec<u8>,
}

/// VerificationParameters is basically the encoded ECDSA public key.
pub struct VerificationParameters {
    pub ecdsa_public_key: Vec<u8>,
}

/// Whether the raw scalar encoding and the encoded point are the two halves
/// of one elliptic-curve key pair.
pub uninterp spec fn ecdsa_key_pair(private_key: Seq<u8>, public_key: Seq<u8>) -> bool;

/// The DER-encoded deterministic (RFC 6979) signature that the private key
/// produces over a message; it depends on key and message alone.
pub uninterp spec fn ecdsa_signature(private_key: Seq<u8>, msg: Seq<u8>) -> Seq<u8>;

/// Whether signature verification accepts: the public encoding parses to a
/// curve point, the signature parses from DER, and the signature is valid for
/// the message under that point; it depends on the arguments alone.
pub uninterp spec fn ecdsa_verifies(public_key: Seq<u8>, msg: Seq<u8>, sig: Seq<u8>) -> bool;

/// Whether thirty-two bytes encode a valid, nonzero secret scalar of the
/// curve; signing accepts exactly such encodings.
pub uninterp spec fn ecdsa_scalar_valid(private_key: Seq<u8>) -> bool;

/// Relies on `p256::ecdsa::SigningKey::random` (over the operating system's
/// entropy source) and `VerifyingKey::to_encoded_point`: a fresh key pair,
/// the private half as its 32-byte scalar encoding, the public half as the
/// 65-byte uncompressed point encoding.
#[verifier::external_body]
fn ecdsa_generate_key_pair() -> (r: (Vec<u8>, Vec<u8>))
    ensures
        r.0@.len() == 32,
        r.1@.len() == 65,
        ecdsa_key_pair(r.0@, r.1@),
        ecdsa_scalar_valid(r.0@),
{
    let signing_key = SigningKey::random(&mut OsRng);
    let verifying_key = VerifyingKey::from(&signing_key);
    let signing_key_as_bytes = Vec::from(signing_key.to_bytes().as_slice());
    let verifying_key_as_bytes = Vec::from(verifying_key.to_encoded_point(false).as_bytes());
    (signing_key_as_bytes, verifying_key_as_bytes)
}

/// Relies on `p256::ecdsa::SigningKey::from_bytes` and `sign`: deterministic
/// (RFC 6979) in key and message; succeeds exactly when the private encoding
/// is 32 bytes holding a valid nonzero scalar; a signature under a key
/// verifies under the matching public half.
#[verifier::external_body]
fn ecdsa_sign_raw(private_key: &[u8], data: &[u8]) -> (r: Result<Vec<u8>, String>)
    ensures
        r is Ok <==> (private_key@.len() == 32 && ecdsa_scalar_valid(private_key@)),
        r matches Ok(sig) ==> sig@ == ecdsa_signature(private_key@, data@),
        r matches Ok(sig) ==> forall|pk: Seq<u8>|
            ecdsa_key_pair(private_key@, pk) ==> ecdsa_verifies(pk, data@, sig@),
{
    let signing_key = SigningKey::from_bytes(private_key).map_err(|e| e.to_string())?;
    let signature: Signature = signing_key.sign(data);
    Ok(signature.to_der().as_bytes().to_vec())
}

/// Relies on `p256::EncodedPoint::from_bytes`,
/// `VerifyingKey::from_encoded_point`, `Signature::from_der` and `verify`:
/// succeeds exactly when the encodings parse and the signature is valid for
/// the message under the public key.
#[verifier::external_body]
fn ecdsa_verify_raw(public_key: &[u8], data: &[u8], signature: &[u8]) -> (r: Result<(), String>)
    ensures
        r is Ok <==> ecdsa_verifies(public_key@, data@, signature@),
{
    let point = EncodedPoint::from_bytes(public_key).map_err(|e| e.to_string())?;
    let verifying_key = VerifyingKey::from_encoded_point(&point).map_err(|e| e.to_string())?;
    let sig = Signature::from_der(signature).map_err(|e| e.to_string())?;
    verifying_key.verify(data, &sig).map_err(|e| e.to_string())
}

/// Reads or creates both halves of a signing key pair at the given location.
/// A fresh pair is generated on every call; existing material wins over it
/// and is never overwritten.
pub fn setup(store: &mut MaterialStore, path_to_encryption_parameters: Option<&str>) -> (r: Result<
    (SignatureParameters, VerificationParameters),
    String,
>)
    requires
        old(store).wf(),
    ensures
        final(store).wf(),
        final(store).working_dir() == old(store).working_dir(),
        preserves_existing(old(store).contents(), final(store).contents()),
        touches_only(
            old(store).contents(),
            final(store).contents(),
            set![
                ecdsa_private_key_file(
                    old(store).working_dir(),
                    opt_str_view(path_to_encryption_parameters),
                ),
                ecdsa_public_key_file(
                    old(store).working_dir(),
                    opt_str_view(path_to_encryption_parameters),
                ),
            ],
        ),
        adds_at_most(
            old(store).contents(),
            final(store).contents(),
            set![
                ecdsa_private_key_file(
                    old(store).working_dir(),
                    opt_str_view(path_to_encryption_parameters),
                ),
                ecdsa_public_key_file(
                    old(store).working_dir(),
                    opt_str_view(path_to_encryption_parameters),
                ),
            ],
        ),
        r is Ok,
        old(store).contents().contains_key(
            ecdsa_private_key_file(
                old(store).working_dir(),
                opt_str_view(path_to_encryption_parameters),
            ),
        ) && old(store).contents().contains_key(
            ecdsa_public_key_file(
                old(store).working_dir(),
                opt_str_view(path_to_encryption_parameters),
            ),
        ) ==> final(store).contents() == old(store).contents(),
        r matches Ok(pair) ==> {
            let privp = ecdsa_private_key_file(
                old(store).working_dir(),
                opt_str_view(path_to_encryption_parameters),
            );
            let pubp = ecdsa_public_key_file(
                old(store).working_dir(),
                opt_str_view(path_to_encryption_parameters),
            );
            &&& final(store).contents().contains_key(privp)
            &&& final(store).contents().contains_key(pubp)
            &&& pair.0.ecdsa_private_key@ == final(store).contents()[privp]
            &&& pair.1.ecdsa_public_key@ == final(store).contents()[pubp]
        },
        r matches Ok(pair) ==> {
            let privp = ecdsa_private_key_file(
                old(store).working_dir(),
                opt_str_view(path_to_encryption_parameters),
            );
            let pubp = ecdsa_public_key_file(
                old(store).working_dir(),
                opt_str_view(path_to_encryption_parameters),
            );
            !old(store).contents().contains_key(privp) && !old(store).contents().contains_key(
                pubp,
            ) ==> {
                &&& ecdsa_key_pair(pair.0.ecdsa_private_key@, pair.1.ecdsa_public_key@)
                &&& ecdsa_scalar_valid(pair.0.ecdsa_private_key@)
                &&& pair.0.ecdsa_private_key@.len() == 32
                &&& pair.1.ecdsa_public_key@.len() == 65
            }
        },
{
    let ghost wd = store.working_dir();
    let ghost base = opt_str_view(path_to_encryption_parameters);
    let ghost pre = store.contents();
    proof {
        reveal_strlit(".ecdsa_private_key.der");
        reveal_strlit(".ecdsa_public_key.der");
        lemma_distinct_names_distinct_paths(
            wd,
            base,
            ".ecdsa_private_key.der"@,
            ".ecdsa_public_key.der"@,
            0,
        );
    }
    let keys = ecdsa_generate_key_pair();
    let (signing_key_as_bytes, verifying_key_as_bytes) = keys;

    let ecdsa_private_key = match setup_private_key(
        store,
        signing_key_as_bytes.as_slice(),
        path_to_encryption_parameters,
    ) {
        Ok(v) => v,
        Err(message) => {
            return Err(message);
        },
    };
    let ecdsa_public_key = match setup_public_key(
        store,
        verifying_key_as_bytes.as_slice(),
        path_to_encryption_parameters,
    ) {
        Ok(v) => v,
        Err(message) => {
            return Err(message);
        },
    };

    let signature_parameters = SignatureParameters { ecdsa_private_key };
    let verification_parameters = VerificationParameters { ecdsa_public_key };
    Ok((signature_parameters, verification_parameters))
}

/// Returns the SignatureParameters stored at the given location; fails when
/// the private key is absent.
pub fn get_signature_params(
    store: &MaterialStore,
    path_to_encryption_parameters: Option<&str>,
) -> (r: Result<SignatureParameters, String>)
    requires
        store.wf(),
    ensures
        ({
            let privp = ecdsa_private_key_file(
                store.working_dir(),
                opt_str_view(path_to_encryption_parameters),
            );
            &&& r is Ok <==> store.contents().contains_key(privp)
            &&& r matches Ok(params) ==> params.ecdsa_private_key@ == store.contents()[privp]
        }),
{
    let ecdsa_private_key = match get_private_key(store, path_to_encryption_parameters) {
        Ok(v) => v,
        Err(message) => {
            return Err(message);
        },
    };
    Ok(SignatureParameters { ecdsa_private_key })
}

/// Returns the VerificationParameters stored at the given location; fails
/// when the public key is absent.
pub fn get_verification_params(
    store: &MaterialStore,
    path_to_encryption_parameters: Option<&str>,
) -> (r: Result<VerificationParameters, String>)
    requires
        store.wf(),
    ensures
        ({
            let pubp = ecdsa_public_key_file(
                store.working_dir(),
                opt_str_view(path_to_encryption_parameters),
            );
            &&& r is Ok <==> store.contents().contains_key(pubp)
            &&& r matches Ok(params) ==> params.ecdsa_public_key@ == store.contents()[pubp]
        }),
{
    let ecdsa_public_key = match get_public_key(store, path_to_encryption_parameters) {
        Ok(v) => v,
        Err(message) => {
            return Err(message);
        },
    };
    Ok(VerificationParameters { ecdsa_public_key })
}

/// Signs the given data with the private key of the parameters: succeeds
/// exactly when the stored private encoding is a valid 32-byte scalar, and
/// fails when the curve rejects it.
pub fn sign(params: SignatureParameters, data: &[u8]) -> (r: Result<Vec<u8>, String>)
    ensures
        r is Ok <==> (params.ecdsa_private_key@.len() == 32 && ecdsa_scalar_valid(
            params.ecdsa_private_key@,
        )),
        r matches Ok(sig) ==> sig@ == ecdsa_signature(params.ecdsa_private_key@, data@),
        r matches Ok(sig) ==> forall|pk: Seq<u8>|
            ecdsa_key_pair(params.ecdsa_private_key@, pk) ==> ecdsa_verifies(pk, data@, sig@),
{
    ecdsa_sign_raw(params.ecdsa_private_key.as_slice(), data)
}

/// Verifies the signature over the given data with the public key of the
/// parameters: succeeds exactly when the encodings parse and the signature is
/// valid for the data.
pub fn verify(params: VerificationParameters, data: &[u8], signature: &[u8]) -> (r: Result<
    (),
    String,
>)
    ensures
        r is Ok <==> ecdsa_verifies(params.ecdsa_public_key@, data@, signature@),
{
    ecdsa_verify_raw(params.ecdsa_public_key.as_slice(), data, signature)
}

fn setup_private_key(
    store: &mut MaterialStore,
    private_key: &[u8],
    path_to_encryption_parameters: Option<&str>,
) -> (r: Result<Vec<u8>, String>)
    requires
        old(store).wf(),
    ensures
        final(store).wf(),
        final(store).working_dir() == old(store).working_dir(),
        preserves_existing(old(store).contents(), final(store).contents()),
        touches_only(
            old(store).contents(),
            final(store).contents(),
            set![
                ecdsa_private_key_file(
                    old(store).working_dir(),
                    opt_str_view(path_to_encryption_parameters),
                ),
            ],
        ),
        adds_at_most(
            old(store).contents(),
            final(store).contents(),
            set![
                ecdsa_private_key_file(
                    old(store).working_dir(),
                    opt_str_view(path_to_encryption_parameters),
                ),
            ],
        ),
        r matches Ok(v) && {
            let privp = ecdsa_private_key_file(
                old(store).working_dir(),
                opt_str_view(path_to_encryption_parameters),
            );
            &&& final(store).contents().contains_key(privp)
            &&& final(store).contents()[privp] == v@
            &&& if old(store).contents().contains_key(privp) {
                v@ == old(store).contents()[privp] && final(store).contents() == old(
                    store,
                ).contents()
            } else {
                v@ == private_key@
            }
        },
{
    let relative_path = get_path_relative_to_working_directory(
        path_to_encryption_parameters,
        ".ecdsa_private_key.der",
    );
    let dsa_private_key_path = match store.get_static_filepath(relative_path.as_str()) {
        Ok(p) => p,
        Err(message) => {
            return Err(message);
        },
    };
    get_or_create_value_at_path(store, dsa_private_key_path.as_str(), private_key)
}

fn get_private_key(store: &MaterialStore, path_to_encryption_parameters: Option<&str>) -> (r:
    Result<Vec<u8>, String>)
    requires
        store.wf(),
    ensures
        ({
            let privp = ecdsa_private_key_file(
                store.working_dir(),
                opt_str_view(path_to_encryption_parameters),
            );
            &&& r is Ok <==> store.contents().contains_key(privp)
            &&& r matches Ok(v) ==> v@ == store.contents()[privp]
        }),
{
    let relative_path = get_path_relative_to_working_directory(
        path_to_encryption_parameters,
        ".ecdsa_private_key.der",
    );
    let ecdsa_private_key_path = match store.get_static_filepath(relative_path.as_str()) {
        Ok(p) => p,
        Err(message) => {
            return Err(message);
        },
    };
    store.read_file(ecdsa_private_key_path.as_str())
}

fn setup_public_key(
    store: &mut MaterialStore,
    public_key: &[u8],
    path_to_encryption_parameters: Option<&str>,
) -> (r: Result<Vec<u8>, String>)
    requires
        old(store).wf(),
    ensures
        final(store).wf(),
        final(store).working_dir() == old(store).working_dir(),
        preserves_existing(old(store).contents(), final(store).contents()),
        touches_only(
            old(store).contents(),
            final(store).contents(),
            set![
                ecdsa_public_key_file(
                    old(store).working_dir(),
                    opt_str_view(path_to_encryption_parameters),
                ),
            ],
        ),
        adds_at_most(
            old(store).contents(),
            final(store).contents(),
            set![
                ecdsa_public_key_file(
                    old(store).working_dir(),
                    opt_str_view(path_to_encryption_parameters),
                ),
            ],
        ),
        r matches Ok(v) && {
            let pubp = ecdsa_public_key_file(
                old(store).working_dir(),
                opt_str_view(path_to_encryption_parameters),
            );
            &&& final(store).contents().contains_key(pubp)
            &&& final(store).contents()[pubp] == v@
            &&& if old(store).contents().contains_key(pubp) {
                v@ == old(store).contents()[pubp] && final(store).contents() == old(
                    store,
                ).contents()
            } else {
                v@ == public_key@
            }
        },
{
    let relative_path = get_path_relative_to_working_directory(
        path_to_encryption_parameters,
        ".ecdsa_public_key.der",
    );
    let ecdsa_public_key_path = match store.get_static_filepath(relative_path.as_str()) {
        Ok(p) => p,
        Err(message) => {
            return Err(message);
        },
    };
    get_or_create_value_at_path(store, ecdsa_public_key_path.as_str(), public_key)
}

fn get_public_key(store: &MaterialStore, path_to_encryption_parameters: Option<&str>) -> (r: Result<
    Vec<u8>,
    String,
>)
    requires
        store.wf(),
    ensures
        ({
            let pubp = ecdsa_public_key_file(
                store.working_dir(),
                opt_str_view(path_to_encryption_parameters),
            );
            &&& r is Ok <==> store.contents().contains_key(pubp)
            &&& r matches Ok(v) ==> v@ == store.contents()[pubp]
        }),
{
    let relative_path = get_path_relative_to_working_directory(
        path_to_encryption_parameters,
        ".ecdsa_public_key.der",
    );
    let ecdsa_public_key_path = match store.get_static_filepath(relative_path.as_str()) {
        Ok(p) => p,
        Err(message) => {
            return Err(message);
        },
    };
    store.read_file(ecdsa_public_key_path.as_str())
}

fn get_or_create_value_at_path(store: &mut MaterialStore, path: &str, value: &[u8]) -> (r: Result<
    Vec<u8>,
    String,
>)
    requires
        old(store).wf(),
    ensures
        final(store).wf(),
        final(store).working_dir() == old(store).working_dir(),
        preserves_existing(old(store).contents(), final(store).contents()),
        touches_only(old(store).contents(), final(store).contents(), set![path@]),
        adds_at_most(old(store).contents(), final(store).contents(), set![path@]),
        r matches Ok(v) && {
            &&& final(store).contents().contains_key(path@)
            &&& final(store).contents()[path@] == v@
            &&& if old(store).contents().contains_key(path@) {
                v@ == old(store).contents()[path@] && final(store).contents() == old(
                    store,
                ).contents()
            } else {
                v@ == value@
            }
        },
{
    store.read_or_create_and_write(path, value)
}

} // verus!
