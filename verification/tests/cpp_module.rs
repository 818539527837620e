use cpp_module::{build_module, is_cpp_project, module, probe_argument, resolve_command};

fn names(v: &[&str]) -> Vec<String> {
    v.iter().map(|s| s.to_string()).collect()
}

#[test]
fn no_qualifying_file_no_module() {
    let files = names(&["README.md", "src", "notes.txt", "Makefile.bak"]);
    assert!(!is_cpp_project(&files));
    assert!(module(&files, &Some("11.2.0\n".to_string())).is_none());
    assert!(module(&files, &None).is_none());
}

#[test]
fn empty_directory_no_module() {
    let files = names(&[]);
    assert!(!is_cpp_project(&files));
    assert!(module(&files, &None).is_none());
}

#[test]
fn cmake_project_with_working_probe() {
    let files = names(&["CMakeLists.txt", "README.md"]);
    let m = module(&files, &Some("11.2.0\n".to_string())).unwrap();
    assert_eq!(m.name, "cpp");
    assert_eq!(m.segments.len(), 2);
    assert_eq!(m.segments[0].name, "symbol");
    assert_eq!(m.segments[0].value, "C++ ");
    assert_eq!(m.segments[1].name, "version");
    assert_eq!(m.segments[1].value, "v11.2.0");
}

#[test]
fn makefile_is_a_marker() {
    assert!(is_cpp_project(&names(&["Makefile"])));
    assert!(!is_cpp_project(&names(&["makefile"])));
    assert!(!is_cpp_project(&names(&["Makefile.old"])));
}

#[test]
fn recognized_extensions_match() {
    assert!(is_cpp_project(&names(&["main.cpp"])));
    assert!(is_cpp_project(&names(&["lib.c"])));
    assert!(is_cpp_project(&names(&["defs.h"])));
    assert!(is_cpp_project(&names(&["defs.hpp"])));
    assert!(is_cpp_project(&names(&["archive.tar.cpp"])));
}

#[test]
fn near_miss_extensions_do_not_match() {
    assert!(!is_cpp_project(&names(&["main.cc"])));
    assert!(!is_cpp_project(&names(&["cpp"])));
    assert!(!is_cpp_project(&names(&[".c"])));
    assert!(!is_cpp_project(&names(&["main.cpp.bak"])));
    assert!(!is_cpp_project(&names(&["main.CPP"])));
    assert!(!is_cpp_project(&names(&["h"])));
    assert!(!is_cpp_project(&names(&["a."])));
}

#[test]
fn one_qualifying_file_among_many_matches() {
    let files = names(&["README.md", "build", "main.cpp", "LICENSE"]);
    assert!(is_cpp_project(&files));
}

#[test]
fn override_used_verbatim() {
    let r = resolve_command(&Some("clang++".to_string()));
    assert_eq!(r, "clang++");
}

#[test]
fn empty_override_falls_back_to_default() {
    assert_eq!(resolve_command(&Some(String::new())), "c++");
}

#[test]
fn absent_override_uses_default() {
    assert_eq!(resolve_command(&None), "c++");
}

#[test]
fn probe_failure_yields_no_module() {
    let files = names(&["main.cpp"]);
    assert!(is_cpp_project(&files));
    assert!(module(&files, &None).is_none());
}

#[test]
fn version_is_trimmed_and_prefixed() {
    let m = build_module("  11.2.0 \t\r\n");
    assert_eq!(m.segments[1].value, "v11.2.0");
}

#[test]
fn interior_whitespace_is_kept() {
    let m = build_module("11.2.0 (GCC)\n");
    assert_eq!(m.segments[1].value, "v11.2.0 (GCC)");
}

#[test]
fn empty_probe_output_gives_bare_prefix() {
    assert_eq!(build_module("").segments[1].value, "v");
    assert_eq!(build_module(" \n ").segments[1].value, "v");
}

#[test]
fn repeated_runs_agree() {
    let files = names(&["CMakeLists.txt"]);
    let probe = Some("9.4.0\n".to_string());
    let m1 = module(&files, &probe).unwrap();
    let m2 = module(&files, &probe).unwrap();
    assert_eq!(m1.name, m2.name);
    assert_eq!(m1.segments.len(), m2.segments.len());
    for (a, b) in m1.segments.iter().zip(m2.segments.iter()) {
        assert_eq!(a.name, b.name);
        assert_eq!(a.value, b.value);
    }
    let files2 = names(&["docs"]);
    assert_eq!(module(&files2, &probe).is_none(), module(&files2, &probe).is_none());
}

#[test]
fn probe_argument_is_dumpversion() {
    assert_eq!(probe_argument(), "-dumpversion");
}

#[test]
fn unicode_whitespace_is_trimmed() {
    assert_eq!(build_module("9\u{a0}\n").segments[1].value, "v9");
    assert_eq!(build_module("\u{2028}7.1\u{3000}\u{2009}").segments[1].value, "v7.1");
    assert_eq!(build_module("\u{85}\u{1680}10\u{205f}\u{202f}").segments[1].value, "v10");
}

#[test]
fn non_whitespace_neighbours_are_kept() {
    assert_eq!(build_module("9\u{200b}\n").segments[1].value, "v9\u{200b}");
}
