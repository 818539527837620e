//! Detector for C++ projects in a shell-prompt generator.
//!
//! Given the file names of the current directory, the library decides
//! whether the directory looks like a C++ project; if it does, and a
//! compiler probe returned a version string, it builds a small styled
//! prompt module (`C++ v<version>`). The caller scans the directory,
//! reads the `CXX` override, and runs the compiler subprocess; the
//! decisions and the formatting live here.

use vstd::prelude::*;

mod detect;
mod segment;
mod text;
mod version;

pub use detect::{
    has_cpp_extension, has_extension, is_cpp_project, is_cpp_project_names, is_marker_name,
    name_qualifies,
};
pub use segment::{build_module, module_shape, version_text, Module, Segment};
pub use text::{is_space_char, spec_trimmed, trim_back, trim_front, trimmed};
pub use version::{probe_argument, resolve_command, resolved_command};

verus! {

/// What one render pass owes: a module comes out exactly when the
/// directory qualifies and the compiler probe answered, and then it has
/// the fixed two-segment shape built from the probe's output.
pub open spec fn module_outcome(
    names: Seq<Seq<char>>,
    probe: Option<Seq<char>>,
    m: Option<Module>,
) -> bool {
    &&& (m is Some <==> detect::is_cpp_project_names(names) && probe is Some)
    &&& (m is Some ==> segment::module_shape(m->0, probe->0))
}

/// The module entry point: one deterministic pass over the directory
/// listing and the probe's answer.
///
/// Returns nothing when the directory is not a C++ project, and nothing
/// when it is but the probe failed (`probe_output` absent); otherwise
/// the built module. The caller need only run the probe when the
/// directory qualifies: with a non-qualifying listing the probe's value
/// does not matter.
pub fn module(file_names: &Vec<String>, probe_output: &Option<String>) -> (m: Option<Module>)
    ensures
        module_outcome(file_names.deep_view(), probe_output.deep_view(), m),
{
    if !detect::is_cpp_project(file_names) {
        return None;
    }
    match probe_output {
        Some(out) => Some(segment::build_module(out.as_str())),
        None => None,
    }
}

/// The observable content of a module: its identifier and the name and
/// text of each segment, in order. The display style is left out: it is
/// opaque foreign data.
pub open spec fn module_observation(m: Module) -> (Seq<char>, Seq<(Seq<char>, Seq<char>)>) {
    (m.name@, m.segments@.map_values(|s: Segment| (s.name@, s.value@)))
}

/// Idempotence of a render pass: two runs over the same directory
/// listing and the same probe output agree. A module comes out of the
/// one exactly when out of the other, and then with the same identifier
/// and the same segments.
pub proof fn lemma_module_deterministic(
    names: Seq<Seq<char>>,
    probe: Option<Seq<char>>,
    m1: Option<Module>,
    m2: Option<Module>,
)
    requires
        module_outcome(names, probe, m1),
        module_outcome(names, probe, m2),
    ensures
        m1 is Some <==> m2 is Some,
        m1 is Some && m2 is Some ==> module_observation(m1->0) == module_observation(m2->0),
{
    if m1 is Some && m2 is Some {
        let a = m1->0;
        let b = m2->0;
        let sa = a.segments@.map_values(|s: Segment| (s.name@, s.value@));
        let sb = b.segments@.map_values(|s: Segment| (s.name@, s.value@));
        assert(sa =~= sb) by {
            assert(sa[0] == sb[0]);
            assert(sa[1] == sb[1]);
        }
    }
}

} // verus!
