use callgraph::artifact::Artifact;
use callgraph::extract::{extend_calls, extract_calls};

fn edge(caller: &str, callee: &str) -> (String, String) {
    (caller.to_string(), callee.to_string())
}

fn artifact(file_name: &str, edges: &[(&str, &str)]) -> Artifact {
    Artifact {
        file_name: file_name.to_string(),
        edges: edges.iter().map(|(a, b)| edge(a, b)).collect(),
    }
}

#[test]
fn two_artifacts_with_one_accepted_edge_each_give_two_pairs() {
    let entries = vec![
        artifact("first.bc", &[("app::a", "app::b")]),
        artifact("second.bc", &[("lib::c", "lib::d")]),
    ];
    let calls = extract_calls(&entries).unwrap();
    assert_eq!(calls, vec![edge("app::a", "app::b"), edge("lib::c", "lib::d")]);
}

#[test]
fn result_follows_the_order_of_the_listing() {
    let entries = vec![
        artifact("z.bc", &[("z::f", "z::g")]),
        artifact("a.bc", &[("a::f", "a::g")]),
    ];
    let calls = extract_calls(&entries).unwrap();
    assert_eq!(calls, vec![edge("z::f", "z::g"), edge("a::f", "a::g")]);
}

#[test]
fn files_without_the_extension_are_not_reflected() {
    let entries = vec![
        artifact("notes.txt", &[("app::x", "app::y")]),
        artifact("first.bc", &[("app::a", "app::b")]),
        artifact("bc", &[("app::p", "app::q")]),
        artifact(".bc", &[("app::r", "app::s")]),
        artifact("first.bc.orig", &[("app::t", "app::u")]),
    ];
    let calls = extract_calls(&entries).unwrap();
    assert_eq!(calls, vec![edge("app::a", "app::b")]);
}

#[test]
fn an_empty_directory_gives_no_calls() {
    let calls = extract_calls(&Vec::new()).unwrap();
    assert!(calls.is_empty());
}

#[test]
fn a_directory_without_artifacts_gives_no_calls() {
    let entries = vec![artifact("Cargo.toml", &[]), artifact("lib.rs", &[("a", "b")])];
    assert!(extract_calls(&entries).unwrap().is_empty());
}

#[test]
fn an_artifact_without_edges_adds_nothing() {
    let entries = vec![
        artifact("empty.bc", &[]),
        artifact("one.bc", &[("app::a", "app::b")]),
    ];
    assert_eq!(extract_calls(&entries).unwrap(), vec![edge("app::a", "app::b")]);
}

#[test]
fn duplicates_are_kept() {
    let entries = vec![
        artifact("one.bc", &[("app::a", "app::b"), ("app::a", "app::b")]),
        artifact("two.bc", &[("app::a", "app::b")]),
    ];
    let calls = extract_calls(&entries).unwrap();
    assert_eq!(
        calls,
        vec![edge("app::a", "app::b"), edge("app::a", "app::b"), edge("app::a", "app::b")]
    );
}

#[test]
fn noise_is_filtered_and_order_within_a_module_is_kept() {
    let entries = vec![artifact(
        "mod.bc",
        &[
            ("app::main", "app::setup"),
            ("app::main", "core::fmt::write"),
            ("std::rt::lang_start", "app::main"),
            ("app::setup", "llvm.memcpy.p0i8.p0i8.i64"),
            ("app::setup", "app::config::load"),
            ("__rust_alloc", "__rust_dealloc"),
        ],
    )];
    let calls = extract_calls(&entries).unwrap();
    assert_eq!(
        calls,
        vec![edge("app::main", "app::setup"), edge("app::setup", "app::config::load")]
    );
}

#[test]
fn raw_symbols_are_demangled() {
    let entries = vec![artifact(
        "mod.bc",
        &[
            ("_ZN3app4main17h05af221e174051e9E", "_ZN3app5setupE"),
            ("_ZN3app4mainE", "_ZN4core3fmt5writeE"),
        ],
    )];
    let calls = extract_calls(&entries).unwrap();
    assert_eq!(calls, vec![edge("app::main", "app::setup")]);
}

#[test]
fn extraction_is_additive_over_the_listing() {
    let first = || {
        vec![
            artifact("a.bc", &[("a::f", "a::g"), ("a::f", "std::x")]),
            artifact("skip.o", &[("s::f", "s::g")]),
        ]
    };
    let second = || {
        vec![
            artifact("b.bc", &[("core::x", "b::g")]),
            artifact("c.bc", &[("c::f", "c::g")]),
        ]
    };
    let mut whole = first();
    whole.extend(second());
    let mut expected = extract_calls(&first()).unwrap();
    expected.extend(extract_calls(&second()).unwrap());
    assert_eq!(extract_calls(&whole).unwrap(), expected);
    assert_eq!(expected, vec![edge("a::f", "a::g"), edge("c::f", "c::g")]);
}

#[test]
fn extend_calls_appends_to_what_is_there() {
    let mut calls = vec![edge("old::a", "old::b")];
    let edges = vec![edge("new::a", "alloc::b"), edge("_ZN3new1cE", "new::d")];
    extend_calls(&mut calls, &edges);
    assert_eq!(calls, vec![edge("old::a", "old::b"), edge("new::c", "new::d")]);
}

#[test]
fn extend_calls_with_no_edges_changes_nothing() {
    let mut calls = vec![edge("old::a", "old::b")];
    extend_calls(&mut calls, &Vec::new());
    assert_eq!(calls, vec![edge("old::a", "old::b")]);
}
