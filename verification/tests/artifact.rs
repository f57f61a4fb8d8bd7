use callgraph::artifact::is_bitcode_file;
use std::path::Path;

#[test]
fn names_with_the_bitcode_extension() {
    assert!(is_bitcode_file("a.bc"));
    assert!(is_bitcode_file("serde-1.0.152.bc"));
    assert!(is_bitcode_file("lib.tar.bc"));
    assert!(is_bitcode_file("..bc"));
    assert!(is_bitcode_file("語.bc"));
}

#[test]
fn names_without_the_bitcode_extension() {
    assert!(!is_bitcode_file(""));
    assert!(!is_bitcode_file("bc"));
    assert!(!is_bitcode_file("abc"));
    assert!(!is_bitcode_file("a.txt"));
    assert!(!is_bitcode_file("a.bc.txt"));
    assert!(!is_bitcode_file("a.bca"));
    assert!(!is_bitcode_file("a.BC"));
    assert!(!is_bitcode_file("a.b c"));
    assert!(!is_bitcode_file("a.bc "));
    assert!(!is_bitcode_file("a.ll"));
}

#[test]
fn a_hidden_file_called_bc_has_no_extension() {
    assert!(!is_bitcode_file(".bc"));
}

#[test]
fn bitcode_names_agree_with_the_path_extension() {
    let names = [
        "", "a", "bc", ".bc", "..bc", "a.bc", "a.b.bc", "a.bc.", "a.bcd", ".a.bc", "a..bc",
        "abc", "a.Bc", "x.bc.bc", "-.bc", "a.cb", "...", ".b.c", "a.bc.txt", "módulo.bc",
    ];
    for name in names {
        let expected = Path::new(name).extension().map(|e| e == "bc").unwrap_or(false);
        assert_eq!(is_bitcode_file(name), expected, "{}", name);
    }
}
