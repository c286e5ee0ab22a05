//! Local custody of cryptographic key material: provisioning of key bundles
//! through an idempotent get-or-create material store, plus encrypt/decrypt
//! and sign/verify operations built on those bundles.

use vstd::prelude::*;

pub mod asymmetric;
pub mod encoding;
pub mod passphrase;
pub mod signing;
pub mod store;
pub mod symmetric;

verus! {

/// The view of an optional borrowed path string.
pub open spec fn opt_str_view(base: Option<&str>) -> Option<Seq<char>> {
    match base {
        Some(b) => Some(b@),
        None => None,
    }
}

/// A logical material name resolved against an optional base path by plain
/// concatenation; with no base the name stands alone.
pub open spec fn rel_path(base: Option<Seq<char>>, filename: Seq<char>) -> Seq<char> {
    match base {
        Some(b) => b + filename,
        None => filename,
    }
}

/// Two material names that differ in length or at some position resolve to
/// two different absolute paths under any working directory and base.
pub proof fn lemma_distinct_names_distinct_paths(
    wd: Seq<char>,
    base: Option<Seq<char>>,
    n1: Seq<char>,
    n2: Seq<char>,
    k: int,
)
    requires
        n1.len() != n2.len() || (0 <= k < n1.len() && k < n2.len() && n1[k] != n2[k]),
    ensures
        wd + rel_path(base, n1) != wd + rel_path(base, n2),
{
    let p1 = wd + rel_path(base, n1);
    let p2 = wd + rel_path(base, n2);
    if n1.len() != n2.len() {
        assert(p1.len() != p2.len());
    } else {
        let off = wd.len() + (match base {
            Some(b) => b.len(),
            None => 0,
        });
        assert(p1[off + k] == n1[k]);
        assert(p2[off + k] == n2[k]);
    }
}

/// Concatenates the base path (when present) and the file name.
/// Callers that want a directory separator must end the base path with one.
pub fn get_path_relative_to_working_directory(
    path_to_encryption_parameters: Option<&str>,
    filename: &str,
) -> (r: String)
    ensures
        r@ == rel_path(opt_str_view(path_to_encryption_parameters), filename@),
{
    match path_to_encryption_parameters {
        Some(path) => {
            let mut joined = String::from_str(path);
            joined.append(filename);
            joined
        },
        None => String::from_str(filename),
    }
}

} // verus!
