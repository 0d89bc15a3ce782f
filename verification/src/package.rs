//! The build package: the compressed archive of the staging directory that
//! is sent to the build worker.  Each package gets a fresh name.

use crate::text::concat3;
use vstd::prelude::*;

verus! {

/// The directory under which the staged files lie inside a package.
pub const ARCHIVE_ROOT: &'static str = "build";

/// Whether `c` is a digit or one of the letters `a` to `f`.
pub open spec fn is_lower_hex(c: char) -> bool {
    let n = c as u32;
    (0x30 <= n <= 0x39) || (0x61 <= n <= 0x66)
}

/// Whether `token` can stand in a package name: 32 lower-case hexadecimal
/// digits.
pub open spec fn is_token(token: Seq<char>) -> bool {
    token.len() == 32 && forall|i: int| 0 <= i < token.len() ==> is_lower_hex(#[trigger] token[i])
}

/// The name of the package with the token `token`.
pub open spec fn package_name_of(token: Seq<char>) -> Seq<char> {
    "build_"@ + token + ".tar.gz"@
}

/// Whether `name` is the name of a package with some token.
pub open spec fn is_package_name(name: Seq<char>) -> bool {
    exists|token: Seq<char>| is_token(token) && name == #[trigger] package_name_of(token)
}

/// Asks the `uuid` crate for a random (version 4) UUID, with
/// `Uuid::new_v4`, and gives it in the crate's simple form: 32 lower-case
/// hexadecimal digits without hyphens.  Which digits is left open.
#[verifier::external_body]
fn random_token() -> (r: String)
    ensures
        is_token(r@),
{
    uuid::Uuid::new_v4().to_simple().to_string()
}

/// The name of the package with the token `token`.
pub fn build_package_name(token: &str) -> (r: String)
    ensures
        r@ == package_name_of(token@),
{
    concat3("build_", token, ".tar.gz")
}

/// A fresh package name: one with a random token.
pub fn new_build_package_name() -> (r: String)
    ensures
        is_package_name(r@),
{
    let token = random_token();
    build_package_name(token.as_str())
}

} // verus!
