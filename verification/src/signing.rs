//! Discrete-log signing: domain parameters and a key pair are generated
//! together at a fixed modulus size, persisted as five independent
//! decimal-string files, and used to sign and verify over a 256-bit digest.

use vstd::prelude::*;
use vstd::utf8::{encode_utf8, valid_utf8};

use openssl::bn::BigNum;
use openssl::dsa::Dsa;
use openssl::hash::MessageDigest;
use openssl::pkey::PKey;
use openssl::sign::{Signer, Verifier};

use crate::encoding::{bytes_to_string, contains_zero_byte, has_zero_byte};
use crate::store::{adds_at_most, preserves_existing, touches_only, MaterialStore};
use crate::{
    get_path_relative_to_working_directory, lemma_distinct_names_distinct_paths, opt_str_view,
    rel_path,
};

verus! {

/// Modulus size of every freshly generated parameter set, in bits.
pub const DSA_SIZE: u32 = 4096;

/// Where the prime modulus lives under the given working directory and base.
pub open spec fn dsa_p_path(wd: Seq<char>, base: Option<Seq<char>>) -> Seq<char> {
    wd + rel_path(base, ".dsa_p"@)
}

/// Where the subgroup prime lives under the given working directory and base.
pub open spec fn dsa_q_path(wd: Seq<char>, base: Option<Seq<char>>) -> Seq<char> {
    wd + rel_path(base, ".dsa_q"@)
}

/// Where the generator lives under the given working directory and base.
pub open spec fn dsa_g_path(wd: Seq<char>, base: Option<Seq<char>>) -> Seq<char> {
    wd + rel_path(base, ".dsa_g"@)
}

/// Where the public key lives under the given working directory and base.
pub open spec fn dsa_public_key_path(wd: Seq<char>, base: Option<Seq<char>>) -> Seq<char> {
    wd + rel_path(base, ".dsa_public_key"@)
}

/// Where the private key lives under the given working directory and base.
pub open spec fn dsa_private_key_path(wd: Seq<char>, base: Option<Seq<char>>) -> Seq<char> {
    wd + rel_path(base, ".dsa_private_key"@)
}

/// The domain parameters and both key halves, as decimal text.
pub struct SignatureParameters {
    pub dsa_p: String,
    pub dsa_q: String,
    pub dsa_g: String,
    pub dsa_private_key: String,
    pub dsa_public_key: String,
}

/// The domain parameters and the public key half, as decimal text.
pub struct VerificationParameters {
    pub dsa_p: String,
    pub dsa_q: String,
    pub dsa_g: String,
    pub dsa_public_key: String,
}

/// Whether the five decimal strings originate from one generation event: the
/// domain parameters are a valid set and the public key is the generator
/// raised to the private key.
pub uninterp spec fn dsa_key_set(
    p: Seq<char>,
    q: Seq<char>,
    g: Seq<char>,
    public_key: Seq<char>,
    private_key: Seq<char>,
) -> bool;

/// Text free of zero bytes: the only decimal strings the big-number parser
/// can be handed without aborting.
pub open spec fn nul_free(s: Seq<char>) -> bool {
    !has_zero_byte(encode_utf8(s))
}

/// Whether the decimal parser accepts the text as a numeral; it depends on
/// the text alone.
pub uninterp spec fn decimal_parses(s: Seq<char>) -> bool;

/// Whether verification runs to completion on these arguments: the decimal
/// texts parse, the public components are accepted as a key, and the
/// signature is decoded far enough to be judged; it depends on the arguments
/// alone.
pub uninterp spec fn dsa_verify_completes(
    p: Seq<char>,
    q: Seq<char>,
    g: Seq<char>,
    public_key: Seq<char>,
    msg: Seq<u8>,
    sig: Seq<u8>,
) -> bool;

/// Whether verification over the 256-bit digest accepts: the decimal strings
/// parse, the public components are accepted, and the signature is valid for
/// the message; it depends on the arguments alone.
pub uninterp spec fn dsa_verifies(
    p: Seq<char>,
    q: Seq<char>,
    g: Seq<char>,
    public_key: Seq<char>,
    msg: Seq<u8>,
    sig: Seq<u8>,
) -> bool;

/// Relies on `openssl::dsa::Dsa::generate` and the decimal `Display` of
/// `BigNumRef`: a fresh parameter set and key pair at the fixed modulus size,
/// returned as (p, q, g, public key, private key) in decimal text, which
/// holds only digits and so no zero byte.
#[verifier::external_body]
fn dsa_generate_components() -> (r: Result<(String, String, String, String, String), String>)
    ensures
        r matches Ok(c) ==> dsa_key_set(c.0@, c.1@, c.2@, c.3@, c.4@),
        r matches Ok(c) ==> nul_free(c.0@) && nul_free(c.1@) && nul_free(c.2@) && nul_free(c.3@)
            && nul_free(c.4@),
{
    let dsa_ref = Dsa::generate(DSA_SIZE).map_err(|e| e.to_string())?;
    let p = dsa_ref.p().to_string();
    let q = dsa_ref.q().to_string();
    let g = dsa_ref.g().to_string();
    let public_key = dsa_ref.pub_key().to_string();
    let private_key = dsa_ref.priv_key().to_string();
    Ok((p, q, g, public_key, private_key))
}

/// Relies on `openssl::bn::BigNum::from_dec_str`,
/// `Dsa::from_private_components`, `PKey::from_dsa` and `Signer` with a
/// 256-bit digest: a component that does not parse as a decimal numeral is
/// an error, and a signature produced from a consistent component set
/// verifies under the public components of that set, through a verification
/// run that completes. The parser aborts on text with a zero byte, so such
/// text is excluded here and rejected by the caller.
#[verifier::external_body]
fn dsa_sign_raw(
    p: &str,
    q: &str,
    g: &str,
    private_key: &str,
    public_key: &str,
    data: &[u8],
) -> (r: Result<Vec<u8>, String>)
    requires
        nul_free(p@),
        nul_free(q@),
        nul_free(g@),
        nul_free(private_key@),
        nul_free(public_key@),
    ensures
        !decimal_parses(p@) || !decimal_parses(q@) || !decimal_parses(g@) || !decimal_parses(
            private_key@,
        ) || !decimal_parses(public_key@) ==> r is Err,
        r matches Ok(sig) ==> dsa_key_set(p@, q@, g@, public_key@, private_key@) ==> dsa_verifies(
            p@,
            q@,
            g@,
            public_key@,
            data@,
            sig@,
        ) && dsa_verify_completes(p@, q@, g@, public_key@, data@, sig@),
{
    let dsa = Dsa::from_private_components(
        get_big_number(p)?,
        get_big_number(q)?,
        get_big_number(g)?,
        get_big_number(private_key)?,
        get_big_number(public_key)?,
    )
        .map_err(|e| e.to_string())?;
    let pkey = PKey::from_dsa(dsa).map_err(|e| e.to_string())?;
    let mut signer = Signer::new(MessageDigest::sha256(), &pkey).map_err(|e| e.to_string())?;
    signer.update(data).map_err(|e| e.to_string())?;
    signer.sign_to_vec().map_err(|e| e.to_string())
}

/// Relies on `openssl::bn::BigNum::from_dec_str`,
/// `Dsa::from_public_components`, `PKey::from_dsa` and `Verifier` with a
/// 256-bit digest: the run completes exactly when the deterministic pipeline
/// accepts the arguments, and then the boolean is the deterministic
/// verification outcome. The parser aborts on text with a zero byte, so such
/// text is excluded here and rejected by the caller.
#[verifier::external_body]
fn dsa_verify_raw(
    p: &str,
    q: &str,
    g: &str,
    public_key: &str,
    data: &[u8],
    signature: &[u8],
) -> (r: Result<bool, String>)
    requires
        nul_free(p@),
        nul_free(q@),
        nul_free(g@),
        nul_free(public_key@),
    ensures
        r is Ok <==> dsa_verify_completes(p@, q@, g@, public_key@, data@, signature@),
        r matches Ok(b) ==> b == dsa_verifies(p@, q@, g@, public_key@, data@, signature@),
{
    let dsa = Dsa::from_public_components(
        get_big_number(p)?,
        get_big_number(q)?,
        get_big_number(g)?,
        get_big_number(public_key)?,
    )
        .map_err(|e| e.to_string())?;
    let pkey = PKey::from_dsa(dsa).map_err(|e| e.to_string())?;
    let mut verifier = Verifier::new(MessageDigest::sha256(), &pkey).map_err(|e| e.to_string())?;
    verifier.update(data).map_err(|e| e.to_string())?;
    verifier.verify(signature).map_err(|e| e.to_string())
}

/// The declared outside type for callers that hold a parsed big number.
#[verifier::external_type_specification]
#[verifier::external_body]
pub struct ExBigNum(BigNum);

/// Relies on `openssl::bn::BigNum::from_dec_str`: parses decimal text into a
/// big number, succeeding exactly on text the parser accepts as a decimal
/// numeral. The parser aborts on text with a zero byte, so such text is
/// excluded.
#[verifier::external_body]
pub fn get_big_number(number: &str) -> (r: Result<BigNum, String>)
    requires
        nul_free(number@),
    ensures
        r is Ok <==> decimal_parses(number@),
{
    BigNum::from_dec_str(number).map_err(|e| e.to_string())
}

/// Reads or creates one decimal-string component at the given absolute path:
/// stored content wins verbatim and is never overwritten; otherwise the given
/// value is stored. Fails only when stored content is not valid text.
pub fn get_or_create_value_at_path(store: &mut MaterialStore, path: &str, value: &str) -> (r:
    Result<String, String>)
    requires
        old(store).wf(),
    ensures
        final(store).wf(),
        final(store).working_dir() == old(store).working_dir(),
        preserves_existing(old(store).contents(), final(store).contents()),
        touches_only(old(store).contents(), final(store).contents(), set![path@]),
        adds_at_most(old(store).contents(), final(store).contents(), set![path@]),
        r is Ok <==> !old(store).contents().contains_key(path@) || valid_utf8(
            old(store).contents()[path@],
        ),
        r matches Ok(s) ==> final(store).contents().contains_key(path@) && encode_utf8(s@)
            == final(store).contents()[path@],
        r matches Ok(s) ==> !old(store).contents().contains_key(path@) ==> s@ == value@,
        old(store).contents().contains_key(path@) ==> final(store).contents() == old(store).contents(),
        r is Err ==> final(store).contents() == old(store).contents(),
{
    let ghost pre = store.contents();
    proof {
        vstd::utf8::encode_utf8_valid_utf8(value@);
    }
    let stored = match store.read_or_create_and_write(path, value.as_bytes()) {
        Ok(v) => v,
        Err(message) => {
            return Err(message);
        },
    };
    let text = match bytes_to_string(stored) {
        Ok(s) => s,
        Err(message) => {
            return Err(message);
        },
    };
    proof {
        vstd::utf8::encode_utf8_decode_utf8(text@);
        vstd::utf8::encode_utf8_decode_utf8(value@);
        if pre.contains_key(path@) {
            assert(store.contents() =~= pre);
        }
    }
    Ok(text)
}

/// Reads or creates the full five-component bundle at the given location and
/// returns the signing capability built from the stored values. Generation
/// always runs; existing files win component by component, so a partially
/// populated location yields a mixed bundle that this subsystem does not
/// detect.
pub fn setup_signature(store: &mut MaterialStore, path_to_encryption_parameters: Option<&str>) -> (r:
    Result<SignatureParameters, String>)
    requires
        old(store).wf(),
    ensures
        final(store).wf(),
        final(store).working_dir() == old(store).working_dir(),
        preserves_existing(old(store).contents(), final(store).contents()),
        touches_only(
            old(store).contents(),
            final(store).contents(),
            dsa_paths(old(store).working_dir(), opt_str_view(path_to_encryption_parameters)),
        ),
        adds_at_most(
            old(store).contents(),
            final(store).contents(),
            dsa_paths(old(store).working_dir(), opt_str_view(path_to_encryption_parameters)),
        ),
        r matches Ok(params) ==> {
            let wd = old(store).working_dir();
            let base = opt_str_view(path_to_encryption_parameters);
            &&& final(store).contents().contains_key(dsa_p_path(wd, base))
            &&& final(store).contents().contains_key(dsa_q_path(wd, base))
            &&& final(store).contents().contains_key(dsa_g_path(wd, base))
            &&& final(store).contents().contains_key(dsa_public_key_path(wd, base))
            &&& final(store).contents().contains_key(dsa_private_key_path(wd, base))
            &&& encode_utf8(params.dsa_p@) == final(store).contents()[dsa_p_path(wd, base)]
            &&& encode_utf8(params.dsa_q@) == final(store).contents()[dsa_q_path(wd, base)]
            &&& encode_utf8(params.dsa_g@) == final(store).contents()[dsa_g_path(wd, base)]
            &&& encode_utf8(params.dsa_public_key@) == final(store).contents()[dsa_public_key_path(
                wd,
                base,
            )]
            &&& encode_utf8(params.dsa_private_key@) == final(store).contents()[dsa_private_key_path(
                wd,
                base,
            )]
        },
        r matches Ok(params) ==> {
            let wd = old(store).working_dir();
            let base = opt_str_view(path_to_encryption_parameters);
            (forall|p: Seq<char>| dsa_paths(wd, base).contains(p) ==> !old(store).contents().contains_key(p)) ==> dsa_key_set(
                params.dsa_p@,
                params.dsa_q@,
                params.dsa_g@,
                params.dsa_public_key@,
                params.dsa_private_key@,
            ) && nul_free(params.dsa_p@) && nul_free(params.dsa_q@) && nul_free(params.dsa_g@)
                && nul_free(params.dsa_public_key@) && nul_free(params.dsa_private_key@)
        },
        (forall|p: Seq<char>|
            dsa_paths(old(store).working_dir(), opt_str_view(path_to_encryption_parameters)).contains(
                p,
            ) ==> old(store).contents().contains_key(p)) ==> final(store).contents() == old(store).contents(),
{
    let ghost wd = store.working_dir();
    let ghost base = opt_str_view(path_to_encryption_parameters);
    let ghost pre = store.contents();
    let ghost all_fresh: bool = forall|x: Seq<char>|
        dsa_paths(wd, base).contains(x) ==> !pre.contains_key(x);
    proof {
        lemma_dsa_paths_distinct(wd, base);
        assert(dsa_paths(wd, base).contains(dsa_p_path(wd, base)));
        assert(dsa_paths(wd, base).contains(dsa_q_path(wd, base)));
        assert(dsa_paths(wd, base).contains(dsa_g_path(wd, base)));
        assert(dsa_paths(wd, base).contains(dsa_public_key_path(wd, base)));
        assert(dsa_paths(wd, base).contains(dsa_private_key_path(wd, base)));
    }
    let components = match dsa_generate_components() {
        Ok(c) => c,
        Err(message) => {
            return Err(message);
        },
    };
    let (p, q, g, public_key, private_key) = components;

    let relative_path = get_path_relative_to_working_directory(
        path_to_encryption_parameters,
        ".dsa_p",
    );
    let dsa_p_file = match store.get_static_filepath(relative_path.as_str()) {
        Ok(f) => f,
        Err(message) => {
            return Err(message);
        },
    };
    proof {
        if all_fresh {
            assert(!store.contents().contains_key(dsa_p_path(wd, base)));
        }
    }
    let stored_p = match get_or_create_value_at_path(store, dsa_p_file.as_str(), p.as_str()) {
        Ok(s) => s,
        Err(message) => {
            return Err(message);
        },
    };

    let relative_path = get_path_relative_to_working_directory(
        path_to_encryption_parameters,
        ".dsa_q",
    );
    let dsa_q_file = match store.get_static_filepath(relative_path.as_str()) {
        Ok(f) => f,
        Err(message) => {
            return Err(message);
        },
    };
    proof {
        if all_fresh {
            assert(!store.contents().contains_key(dsa_q_path(wd, base)));
        }
    }
    let stored_q = match get_or_create_value_at_path(store, dsa_q_file.as_str(), q.as_str()) {
        Ok(s) => s,
        Err(message) => {
            return Err(message);
        },
    };

    let relative_path = get_path_relative_to_working_directory(
        path_to_encryption_parameters,
        ".dsa_g",
    );
    let dsa_g_file = match store.get_static_filepath(relative_path.as_str()) {
        Ok(f) => f,
        Err(message) => {
            return Err(message);
        },
    };
    proof {
        if all_fresh {
            assert(!store.contents().contains_key(dsa_g_path(wd, base)));
        }
    }
    let stored_g = match get_or_create_value_at_path(store, dsa_g_file.as_str(), g.as_str()) {
        Ok(s) => s,
        Err(message) => {
            return Err(message);
        },
    };

    let relative_path = get_path_relative_to_working_directory(
        path_to_encryption_parameters,
        ".dsa_public_key",
    );
    let dsa_public_key_file = match store.get_static_filepath(relative_path.as_str()) {
        Ok(f) => f,
        Err(message) => {
            return Err(message);
        },
    };
    proof {
        if all_fresh {
            assert(!store.contents().contains_key(dsa_public_key_path(wd, base)));
        }
    }
    let stored_public_key = match get_or_create_value_at_path(
        store,
        dsa_public_key_file.as_str(),
        public_key.as_str(),
    ) {
        Ok(s) => s,
        Err(message) => {
            return Err(message);
        },
    };

    let relative_path = get_path_relative_to_working_directory(
        path_to_encryption_parameters,
        ".dsa_private_key",
    );
    let dsa_private_key_file = match store.get_static_filepath(relative_path.as_str()) {
        Ok(f) => f,
        Err(message) => {
            return Err(message);
        },
    };
    proof {
        if all_fresh {
            assert(!store.contents().contains_key(dsa_private_key_path(wd, base)));
        }
    }
    let stored_private_key = match get_or_create_value_at_path(
        store,
        dsa_private_key_file.as_str(),
        private_key.as_str(),
    ) {
        Ok(s) => s,
        Err(message) => {
            return Err(message);
        },
    };

    proof {
        if all_fresh {
            assert(stored_p@ == p@ && stored_q@ == q@ && stored_g@ == g@);
            assert(stored_public_key@ == public_key@ && stored_private_key@ == private_key@);
        }
    }
    let signature_parameters = SignatureParameters {
        dsa_p: stored_p,
        dsa_q: stored_q,
        dsa_g: stored_g,
        dsa_private_key: stored_private_key,
        dsa_public_key: stored_public_key,
    };
    Ok(signature_parameters)
}

/// Reads or creates the full bundle at the given location and returns both
/// capability halves: the signing half carries all five components, the
/// verification half the domain parameters and the public key.
pub fn setup(store: &mut MaterialStore, path_to_encryption_parameters: Option<&str>) -> (r: Result<
    (SignatureParameters, VerificationParameters),
    String,
>)
    requires
        old(store).wf(),
    ensures
        final(store).wf(),
        final(store).working_dir() == old(store).working_dir(),
        preserves_existing(old(store).contents(), final(store).contents()),
        touches_only(
            old(store).contents(),
            final(store).contents(),
            dsa_paths(old(store).working_dir(), opt_str_view(path_to_encryption_parameters)),
        ),
        adds_at_most(
            old(store).contents(),
            final(store).contents(),
            dsa_paths(old(store).working_dir(), opt_str_view(path_to_encryption_parameters)),
        ),
        r matches Ok(pair) ==> {
            &&& pair.1.dsa_p@ == pair.0.dsa_p@
            &&& pair.1.dsa_q@ == pair.0.dsa_q@
            &&& pair.1.dsa_g@ == pair.0.dsa_g@
            &&& pair.1.dsa_public_key@ == pair.0.dsa_public_key@
        },
        r matches Ok(pair) ==> {
            let wd = old(store).working_dir();
            let base = opt_str_view(path_to_encryption_parameters);
            &&& final(store).contents().contains_key(dsa_p_path(wd, base))
            &&& final(store).contents().contains_key(dsa_q_path(wd, base))
            &&& final(store).contents().contains_key(dsa_g_path(wd, base))
            &&& final(store).contents().contains_key(dsa_public_key_path(wd, base))
            &&& final(store).contents().contains_key(dsa_private_key_path(wd, base))
            &&& encode_utf8(pair.0.dsa_p@) == final(store).contents()[dsa_p_path(wd, base)]
            &&& encode_utf8(pair.0.dsa_q@) == final(store).contents()[dsa_q_path(wd, base)]
            &&& encode_utf8(pair.0.dsa_g@) == final(store).contents()[dsa_g_path(wd, base)]
            &&& encode_utf8(pair.0.dsa_public_key@) == final(store).contents()[dsa_public_key_path(
                wd,
                base,
            )]
            &&& encode_utf8(pair.0.dsa_private_key@) == final(store).contents()[dsa_private_key_path(wd, base)]
        },
        r matches Ok(pair) ==> {
            let wd = old(store).working_dir();
            let base = opt_str_view(path_to_encryption_parameters);
            (forall|p: Seq<char>| dsa_paths(wd, base).contains(p) ==> !old(store).contents().contains_key(p)) ==> dsa_key_set(
                pair.0.dsa_p@,
                pair.0.dsa_q@,
                pair.0.dsa_g@,
                pair.0.dsa_public_key@,
                pair.0.dsa_private_key@,
            ) && nul_free(pair.0.dsa_p@) && nul_free(pair.0.dsa_q@) && nul_free(pair.0.dsa_g@)
                && nul_free(pair.0.dsa_public_key@) && nul_free(pair.0.dsa_private_key@)
        },
        (forall|p: Seq<char>|
            dsa_paths(old(store).working_dir(), opt_str_view(path_to_encryption_parameters)).contains(
                p,
            ) ==> old(store).contents().contains_key(p)) ==> final(store).contents() == old(store).contents(),
{
    let signature_parameters = match setup_signature(store, path_to_encryption_parameters) {
        Ok(s) => s,
        Err(message) => {
            return Err(message);
        },
    };
    let verification_parameters = VerificationParameters {
        dsa_p: signature_parameters.dsa_p.clone(),
        dsa_q: signature_parameters.dsa_q.clone(),
        dsa_g: signature_parameters.dsa_g.clone(),
        dsa_public_key: signature_parameters.dsa_public_key.clone(),
    };
    Ok((signature_parameters, verification_parameters))
}

/// The five component paths of a bundle location.
pub open spec fn dsa_paths(wd: Seq<char>, base: Option<Seq<char>>) -> Set<Seq<char>> {
    set![
        dsa_p_path(wd, base),
        dsa_q_path(wd, base),
        dsa_g_path(wd, base),
        dsa_public_key_path(wd, base),
        dsa_private_key_path(wd, base),
    ]
}

proof fn lemma_dsa_paths_distinct(wd: Seq<char>, base: Option<Seq<char>>)
    ensures
        dsa_p_path(wd, base) != dsa_q_path(wd, base),
        dsa_p_path(wd, base) != dsa_g_path(wd, base),
        dsa_p_path(wd, base) != dsa_public_key_path(wd, base),
        dsa_p_path(wd, base) != dsa_private_key_path(wd, base),
        dsa_q_path(wd, base) != dsa_g_path(wd, base),
        dsa_q_path(wd, base) != dsa_public_key_path(wd, base),
        dsa_q_path(wd, base) != dsa_private_key_path(wd, base),
        dsa_g_path(wd, base) != dsa_public_key_path(wd, base),
        dsa_g_path(wd, base) != dsa_private_key_path(wd, base),
        dsa_public_key_path(wd, base) != dsa_private_key_path(wd, base),
{
    reveal_strlit(".dsa_p");
    reveal_strlit(".dsa_q");
    reveal_strlit(".dsa_g");
    reveal_strlit(".dsa_public_key");
    reveal_strlit(".dsa_private_key");
    lemma_distinct_names_distinct_paths(wd, base, ".dsa_p"@, ".dsa_q"@, 5);
    lemma_distinct_names_distinct_paths(wd, base, ".dsa_p"@, ".dsa_g"@, 5);
    lemma_distinct_names_distinct_paths(wd, base, ".dsa_p"@, ".dsa_public_key"@, 0);
    lemma_distinct_names_distinct_paths(wd, base, ".dsa_p"@, ".dsa_private_key"@, 0);
    lemma_distinct_names_distinct_paths(wd, base, ".dsa_q"@, ".dsa_g"@, 5);
    lemma_distinct_names_distinct_paths(wd, base, ".dsa_q"@, ".dsa_public_key"@, 0);
    lemma_distinct_names_distinct_paths(wd, base, ".dsa_q"@, ".dsa_private_key"@, 0);
    lemma_distinct_names_distinct_paths(wd, base, ".dsa_g"@, ".dsa_public_key"@, 0);
    lemma_distinct_names_distinct_paths(wd, base, ".dsa_g"@, ".dsa_private_key"@, 0);
    lemma_distinct_names_distinct_paths(wd, base, ".dsa_public_key"@, ".dsa_private_key"@, 0);
}

/// Returns the SignatureParameters stored at the given location; fails when
/// any of the five components is absent or is not valid text.
pub fn get_signature_params(
    store: &MaterialStore,
    path_to_encryption_parameters: Option<&str>,
) -> (r: Result<SignatureParameters, String>)
    requires
        store.wf(),
    ensures
        ({
            let wd = store.working_dir();
            let base = opt_str_view(path_to_encryption_parameters);
            &&& r is Ok <==> stored_text(store.contents(), dsa_p_path(wd, base)) && stored_text(
                store.contents(),
                dsa_q_path(wd, base),
            ) && stored_text(store.contents(), dsa_g_path(wd, base)) && stored_text(
                store.contents(),
                dsa_public_key_path(wd, base),
            ) && stored_text(store.contents(), dsa_private_key_path(wd, base))
            &&& r matches Ok(params) ==> encode_utf8(params.dsa_p@) == store.contents()[dsa_p_path(
                wd,
                base,
            )] && encode_utf8(params.dsa_q@) == store.contents()[dsa_q_path(wd, base)]
                && encode_utf8(params.dsa_g@) == store.contents()[dsa_g_path(wd, base)]
                && encode_utf8(params.dsa_public_key@) == store.contents()[dsa_public_key_path(
                wd,
                base,
            )] && encode_utf8(params.dsa_private_key@) == store.contents()[dsa_private_key_path(
                wd,
                base,
            )]
        }),
{
    let dsa_p = match read_component(store, path_to_encryption_parameters, ".dsa_p") {
        Ok(s) => s,
        Err(message) => {
            return Err(message);
        },
    };
    let dsa_q = match read_component(store, path_to_encryption_parameters, ".dsa_q") {
        Ok(s) => s,
        Err(message) => {
            return Err(message);
        },
    };
    let dsa_g = match read_component(store, path_to_encryption_parameters, ".dsa_g") {
        Ok(s) => s,
        Err(message) => {
            return Err(message);
        },
    };
    let dsa_public_key = match read_component(
        store,
        path_to_encryption_parameters,
        ".dsa_public_key",
    ) {
        Ok(s) => s,
        Err(message) => {
            return Err(message);
        },
    };
    let dsa_private_key = match read_component(
        store,
        path_to_encryption_parameters,
        ".dsa_private_key",
    ) {
        Ok(s) => s,
        Err(message) => {
            return Err(message);
        },
    };
    Ok(SignatureParameters { dsa_p, dsa_q, dsa_g, dsa_private_key, dsa_public_key })
}

/// Returns the VerificationParameters stored at the given location; fails
/// when any of its four components is absent or is not valid text.
pub fn get_verification_params(
    store: &MaterialStore,
    path_to_encryption_parameters: Option<&str>,
) -> (r: Result<VerificationParameters, String>)
    requires
        store.wf(),
    ensures
        ({
            let wd = store.working_dir();
            let base = opt_str_view(path_to_encryption_parameters);
            &&& r is Ok <==> stored_text(store.contents(), dsa_p_path(wd, base)) && stored_text(
                store.contents(),
                dsa_q_path(wd, base),
            ) && stored_text(store.contents(), dsa_g_path(wd, base)) && stored_text(
                store.contents(),
                dsa_public_key_path(wd, base),
            )
            &&& r matches Ok(params) ==> encode_utf8(params.dsa_p@) == store.contents()[dsa_p_path(
                wd,
                base,
            )] && encode_utf8(params.dsa_q@) == store.contents()[dsa_q_path(wd, base)]
                && encode_utf8(params.dsa_g@) == store.contents()[dsa_g_path(wd, base)]
                && encode_utf8(params.dsa_public_key@) == store.contents()[dsa_public_key_path(
                wd,
                base,
            )]
        }),
{
    let dsa_p = match read_component(store, path_to_encryption_parameters, ".dsa_p") {
        Ok(s) => s,
        Err(message) => {
            return Err(message);
        },
    };
    let dsa_q = match read_component(store, path_to_encryption_parameters, ".dsa_q") {
        Ok(s) => s,
        Err(message) => {
            return Err(message);
        },
    };
    let dsa_g = match read_component(store, path_to_encryption_parameters, ".dsa_g") {
        Ok(s) => s,
        Err(message) => {
            return Err(message);
        },
    };
    let dsa_public_key = match read_component(
        store,
        path_to_encryption_parameters,
        ".dsa_public_key",
    ) {
        Ok(s) => s,
        Err(message) => {
            return Err(message);
        },
    };
    Ok(VerificationParameters { dsa_p, dsa_q, dsa_g, dsa_public_key })
}

/// Text material stands at the path: present and valid as text.
pub open spec fn stored_text(contents: Map<Seq<char>, Seq<u8>>, path: Seq<char>) -> bool {
    contents.contains_key(path) && valid_utf8(contents[path])
}

fn read_component(
    store: &MaterialStore,
    path_to_encryption_parameters: Option<&str>,
    filename: &str,
) -> (r: Result<String, String>)
    requires
        store.wf(),
    ensures
        ({
            let path = store.working_dir() + rel_path(
                opt_str_view(path_to_encryption_parameters),
                filename@,
            );
            &&& r is Ok <==> stored_text(store.contents(), path)
            &&& r matches Ok(s) ==> encode_utf8(s@) == store.contents()[path]
        }),
{
    let relative_path = get_path_relative_to_working_directory(
        path_to_encryption_parameters,
        filename,
    );
    let component_path = match store.get_static_filepath(relative_path.as_str()) {
        Ok(f) => f,
        Err(message) => {
            return Err(message);
        },
    };
    let bytes = match store.read_file(component_path.as_str()) {
        Ok(v) => v,
        Err(message) => {
            return Err(message);
        },
    };
    bytes_to_string(bytes)
}

/// Signs the given data with the five components of the parameters. A field
/// holding a zero byte or text that is no decimal numeral is an error; a
/// signature produced from a consistent component set verifies under the
/// public components of that set, through a verification run that completes.
pub fn sign(params: SignatureParameters, data: &[u8]) -> (r: Result<Vec<u8>, String>)
    ensures
        r matches Ok(sig) ==> dsa_key_set(
            params.dsa_p@,
            params.dsa_q@,
            params.dsa_g@,
            params.dsa_public_key@,
            params.dsa_private_key@,
        ) ==> dsa_verifies(
            params.dsa_p@,
            params.dsa_q@,
            params.dsa_g@,
            params.dsa_public_key@,
            data@,
            sig@,
        ) && dsa_verify_completes(
            params.dsa_p@,
            params.dsa_q@,
            params.dsa_g@,
            params.dsa_public_key@,
            data@,
            sig@,
        ),
        !nul_free(params.dsa_p@) || !nul_free(params.dsa_q@) || !nul_free(params.dsa_g@)
            || !nul_free(params.dsa_private_key@) || !nul_free(params.dsa_public_key@) ==> r is Err,
        !decimal_parses(params.dsa_p@) || !decimal_parses(params.dsa_q@) || !decimal_parses(
            params.dsa_g@,
        ) || !decimal_parses(params.dsa_private_key@) || !decimal_parses(params.dsa_public_key@)
            ==> r is Err,
{
    if contains_zero_byte(params.dsa_p.as_str().as_bytes()) || contains_zero_byte(
        params.dsa_q.as_str().as_bytes(),
    ) || contains_zero_byte(params.dsa_g.as_str().as_bytes()) || contains_zero_byte(
        params.dsa_private_key.as_str().as_bytes(),
    ) || contains_zero_byte(params.dsa_public_key.as_str().as_bytes()) {
        return Err(String::from_str("key component holds a zero byte"));
    }
    dsa_sign_raw(
        params.dsa_p.as_str(),
        params.dsa_q.as_str(),
        params.dsa_g.as_str(),
        params.dsa_private_key.as_str(),
        params.dsa_public_key.as_str(),
        data,
    )
}

/// Verifies the signature over the given data with the public components of
/// the parameters. A field holding a zero byte is an error; otherwise the
/// call completes exactly when the deterministic pipeline accepts the
/// arguments, and then the boolean is the deterministic verification
/// outcome.
pub fn verify(params: VerificationParameters, data: &[u8], signature: Vec<u8>) -> (r: Result<
    bool,
    String,
>)
    ensures
        nul_free(params.dsa_p@) && nul_free(params.dsa_q@) && nul_free(params.dsa_g@) && nul_free(
            params.dsa_public_key@,
        ) ==> (r is Ok <==> dsa_verify_completes(
            params.dsa_p@,
            params.dsa_q@,
            params.dsa_g@,
            params.dsa_public_key@,
            data@,
            signature@,
        )),
        !nul_free(params.dsa_p@) || !nul_free(params.dsa_q@) || !nul_free(params.dsa_g@)
            || !nul_free(params.dsa_public_key@) ==> r is Err,
        r matches Ok(b) ==> b == dsa_verifies(
            params.dsa_p@,
            params.dsa_q@,
            params.dsa_g@,
            params.dsa_public_key@,
            data@,
            signature@,
        ),
{
    if contains_zero_byte(params.dsa_p.as_str().as_bytes()) || contains_zero_byte(
        params.dsa_q.as_str().as_bytes(),
    ) || contains_zero_byte(params.dsa_g.as_str().as_bytes()) || contains_zero_byte(
        params.dsa_public_key.as_str().as_bytes(),
    ) {
        return Err(String::from_str("key component holds a zero byte"));
    }
    dsa_verify_raw(
        params.dsa_p.as_str(),
        params.dsa_q.as_str(),
        params.dsa_g.as_str(),
        params.dsa_public_key.as_str(),
        data,
        signature.as_slice(),
    )
}

} // verus!
