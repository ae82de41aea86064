//! Construction of the launch URL from a resolved role.

use vstd::prelude::*;
use crate::role::{Role, role_as_str, role_token};
use vstd::string::StringExecFns;

verus! {

/// The fixed origin and path every launch URL starts with; the resolved
/// role follows as the value of the single `role` query parameter.
pub open spec fn base_url() -> Seq<char> {
    "https://app.truckercore.com/desktop?role="@
}

/// The launch URL is a pure function of the role: the fixed base with the
/// role's token appended. No other state enters into it.
pub open spec fn launch_url_spec(r: Role) -> Seq<char> {
    base_url() + role_token(r)
}

/// Builds the URL the main surface is directed to at startup.
pub fn launch_url(r: Role) -> (u: String)
    ensures
        u@ == launch_url_spec(r),
{
    let mut u = String::from_str("https://app.truckercore.com/desktop?role=");
    u.append(role_as_str(r));
    u
}

/// Identical roles always yield byte-identical launch URLs: the URL depends
/// on nothing but the role's value.
pub proof fn lemma_launch_url_deterministic(a: Role, b: Role)
    requires
        a == b,
    ensures
        launch_url_spec(a) == launch_url_spec(b),
{
}

} // verus!
