//! Building the names of the environment variables that locate a service:
//! a role name is uppercased, dashes become underscores, and a fixed suffix
//! names the host or the port.  Reading the variables themselves is left to
//! the caller.

use vstd::prelude::*;
use vstd::string::*;

verus! {

/// The Unicode uppercase form of a sequence of characters.  What it is on
/// given characters is stated nowhere; it is a function of the characters
/// alone.
pub uninterp spec fn upper_of(s: Seq<char>) -> Seq<char>;

/// Relies on `str::to_uppercase`: the Unicode uppercase mapping of the
/// string, a function of its characters alone.
#[verifier::external_body]
fn uppercase(s: &str) -> (r: String)
    ensures
        r@ == upper_of(s@),
{
    s.to_uppercase()
}

/// Every `-` replaced by `_`, all other characters kept.
pub open spec fn dash_to_underscore(s: Seq<char>) -> Seq<char> {
    s.map_values(
        |c: char|
            if c == '-' {
                '_'
            } else {
                c
            },
    )
}

/// Relies on `str::replace` with the one-character pattern `-`: every `-`
/// becomes `_` and every other character stays.
#[verifier::external_body]
fn replace_dashes(s: &str) -> (r: String)
    ensures
        r@ == dash_to_underscore(s@),
{
    s.replace("-", "_")
}

/// `role.to_uppercase().replace("-", "_")`
pub fn convert_role_to_env_var(role: &str) -> (r: String)
    ensures
        r@ == dash_to_underscore(upper_of(role@)),
{
    let upper = uppercase(role);
    replace_dashes(upper.as_str())
}

/// The name of the variable that holds a role's service host:
/// `<ROLE>_SERVICE_HOST`.
pub fn host_env_var_name(role: &str) -> (r: String)
    ensures
        r@ == dash_to_underscore(upper_of(role@)) + "_SERVICE_HOST"@,
{
    let mut s = convert_role_to_env_var(role);
    s.append("_SERVICE_HOST");
    s
}

/// The name of the variable that holds a role's service port:
/// `<ROLE>_SERVICE_PORT`.
pub fn port_env_var_name(role: &str) -> (r: String)
    ensures
        r@ == dash_to_underscore(upper_of(role@)) + "_SERVICE_PORT"@,
{
    let mut s = convert_role_to_env_var(role);
    s.append("_SERVICE_PORT");
    s
}

} // verus!
