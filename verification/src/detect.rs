//! Decides whether a directory listing looks like a C++ project.
//!
//! A directory qualifies when it contains one of the build-system marker
//! files (`Makefile`, `CMakeLists.txt`) or a file whose extension is one
//! of `c`, `cpp`, `h`, `hpp`.

use vstd::prelude::*;
use vstd::string::StrSliceExecFns;

verus! {

/// A file name is a marker when it is exactly one of the two
/// build-system files.
pub open spec fn is_marker_name(name: Seq<char>) -> bool {
    name == "Makefile"@ || name == "CMakeLists.txt"@
}

/// `name` has extension `ext`: the characters after the last dot are
/// exactly `ext`, and at least one character stands before that dot
/// (a name that is nothing but a dotted suffix has no extension).
pub open spec fn has_extension(name: Seq<char>, ext: Seq<char>) -> bool {
    let i = name.len() - ext.len() - 1;
    &&& 1 <= i
    &&& name[i] == '.'
    &&& (forall|j: int| i < j < name.len() ==> name[j] != '.')
    &&& name.subrange(i + 1, name.len() as int) == ext
}

/// The recognized C++ source extensions.
pub open spec fn has_cpp_extension(name: Seq<char>) -> bool {
    ||| has_extension(name, "c"@)
    ||| has_extension(name, "cpp"@)
    ||| has_extension(name, "h"@)
    ||| has_extension(name, "hpp"@)
}

/// One file name makes the directory qualify.
pub open spec fn name_qualifies(name: Seq<char>) -> bool {
    is_marker_name(name) || has_cpp_extension(name)
}

/// The directory qualifies when some listed name does.
pub open spec fn is_cpp_project_names(names: Seq<Seq<char>>) -> bool {
    exists|i: int| 0 <= i < names.len() && name_qualifies(names[i])
}

/// Character-by-character string equality.
fn str_eq(a: &str, b: &str) -> (r: bool)
    ensures
        r == (a@ == b@),
{
    let an = a.unicode_len();
    let bn = b.unicode_len();
    if an != bn {
        return false;
    }
    let mut i: usize = 0;
    while i < an
        invariant
            i <= an,
            an == a@.len(),
            an == b@.len(),
            forall|j: int| 0 <= j < i ==> a@[j] == b@[j],
        decreases an - i,
    {
        if a.get_char(i) != b.get_char(i) {
            return false;
        }
        i += 1;
    }
    proof {
        assert(a@ =~= b@);
    }
    true
}

/// `name` ends in a dot followed by exactly `ext`, with the dot neither
/// first nor repeated later.
fn has_extension_exec(name: &str, ext: &str) -> (r: bool)
    requires
        ext@.len() >= 1,
        forall|j: int| 0 <= j < ext@.len() ==> ext@[j] != '.',
    ensures
        r == has_extension(name@, ext@),
{
    let n = name.unicode_len();
    let k = ext.unicode_len();
    if k >= n || n - k < 2 {
        return false;
    }
    let i = n - k - 1;
    if name.get_char(i) != '.' {
        return false;
    }
    let mut j: usize = 0;
    while j < k
        invariant
            j <= k,
            n == name@.len(),
            k == ext@.len(),
            i == n - k - 1,
            1 <= i < n,
            forall|t: int| 0 <= t < j ==> name@[i + 1 + t] == ext@[t],
        decreases k - j,
    {
        if name.get_char(i + 1 + j) != ext.get_char(j) {
            proof {
                assert(name@.subrange(i + 1, name@.len() as int)[j as int] == name@[i + 1 + j]);
            }
            return false;
        }
        j += 1;
    }
    proof {
        assert(name@.subrange(i + 1, name@.len() as int) =~= ext@);
        assert forall|t: int| i < t < name@.len() implies name@[t] != '.' by {
            assert(name@[t] == name@.subrange(i + 1, name@.len() as int)[t - i - 1]);
        }
    }
    true
}

/// Does one file name make the directory qualify?
fn name_qualifies_exec(name: &str) -> (r: bool)
    ensures
        r == name_qualifies(name@),
{
    proof {
        reveal_strlit("c");
        reveal_strlit("cpp");
        reveal_strlit("h");
        reveal_strlit("hpp");
    }
    if str_eq(name, "Makefile") || str_eq(name, "CMakeLists.txt") {
        return true;
    }
    has_extension_exec(name, "c") || has_extension_exec(name, "cpp") || has_extension_exec(
        name,
        "h",
    ) || has_extension_exec(name, "hpp")
}

/// The project detector: a pure predicate over the file names of the
/// scanned directory. True exactly when some name is a marker file or
/// carries a recognized C++ extension.
pub fn is_cpp_project(file_names: &Vec<String>) -> (r: bool)
    ensures
        r == is_cpp_project_names(file_names.deep_view()),
{
    let mut i: usize = 0;
    while i < file_names.len()
        invariant
            i <= file_names.len(),
            forall|j: int| 0 <= j < i ==> !name_qualifies(file_names.deep_view()[j]),
        decreases file_names.len() - i,
    {
        if name_qualifies_exec(file_names[i].as_str()) {
            proof {
                assert(file_names.deep_view()[i as int] == file_names@[i as int]@);
            }
            return true;
        }
        proof {
            assert(file_names.deep_view()[i as int] == file_names@[i as int]@);
        }
        i += 1;
    }
    false
}

} // verus!
