//! Resolving which compiler executable to probe for a version.
//!
//! The caller reads the `CXX` environment variable and hands its value
//! in; the resolver is a pure function of that override. A present,
//! non-empty override is used verbatim; an absent or empty one falls
//! back to the default `c++`.

use vstd::prelude::*;
use vstd::string::StringExecFns;

verus! {

/// The compiler command that the probe should run: the override when it
/// is present and non-empty, otherwise `c++`.
pub open spec fn resolved_command(cxx_override: Option<Seq<char>>) -> Seq<char> {
    match cxx_override {
        Some(v) => if v.len() > 0 {
            v
        } else {
            "c++"@
        },
        None => "c++"@,
    }
}

/// The single fixed argument the probe passes to the compiler: it asks
/// for a bare version number.
pub fn probe_argument() -> (r: &'static str)
    ensures
        r@ == "-dumpversion"@,
{
    "-dumpversion"
}

/// Resolves the compiler executable name from the `CXX` override, if
/// any. An empty override counts as unset.
pub fn resolve_command(cxx_override: &Option<String>) -> (r: String)
    ensures
        r@ == resolved_command(cxx_override.deep_view()),
{
    match cxx_override {
        Some(v) => {
            if v.as_str().is_empty() {
                String::from_str("c++")
            } else {
                v.clone()
            }
        },
        None => String::from_str("c++"),
    }
}

} // verus!
