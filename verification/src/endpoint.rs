//! Where the provider's API lives and how calls to it are authorised.

use vstd::prelude::*;
use vstd::string::StringExecFns;

verus! {

/// The address under which every call to the provider is made.
pub const BASE_URL: &'static str = "https://api.timeular.com/api/v3";

/// [`BASE_URL`] as a sequence of characters.
pub open spec fn base_url() -> Seq<char> {
    BASE_URL@
}

/// The word that precedes a token in an `Authorization` header.
pub open spec fn bearer_prefix() -> Seq<char> {
    "Bearer "@
}

/// The full address of the API call at `path`.
pub fn url(path: &str) -> (r: String)
    ensures
        r@ == base_url() + path@,
{
    String::from_str(BASE_URL).concat(path)
}

/// The value of the `Authorization` header that presents `token`.
pub fn auth(token: &str) -> (r: String)
    ensures
        r@ == bearer_prefix() + token@,
{
    String::from_str("Bearer ").concat(token)
}

} // verus!
