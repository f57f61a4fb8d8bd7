use callgraph::error::{Error, ProcessOutput};
use callgraph::toolchain::{
    build_output_dir, clean, clean_command, compile_command, compile_failure, failure_message,
    store_subdir,
};

fn output(code: Option<i32>, stdout: &[u8], stderr: &[u8]) -> ProcessOutput {
    ProcessOutput { code, stdout: stdout.to_vec(), stderr: stderr.to_vec() }
}

#[test]
fn compile_command_line() {
    let cmd = compile_command();
    assert_eq!(cmd.program, "cargo");
    assert_eq!(
        cmd.args,
        vec!["+1.67", "rustc", "--release", "--lib", "--", "-g", "--emit=llvm-bc", "-C", "lto=off"]
    );
}

#[test]
fn clean_command_line() {
    let cmd = clean_command();
    assert_eq!(cmd.program, "cargo");
    assert_eq!(cmd.args, vec!["+1.60", "clean"]);
}

#[test]
fn build_output_directory() {
    assert_eq!(build_output_dir(), "target");
}

#[test]
fn store_subdirectory_is_name_hyphen_version() {
    assert_eq!(store_subdir("serde", "1.0.152"), "serde-1.0.152");
    assert_eq!(store_subdir("my-crate", "0.1.0-alpha"), "my-crate-0.1.0-alpha");
    assert_eq!(store_subdir("", ""), "-");
}

#[test]
fn success_is_exit_code_zero() {
    assert!(output(Some(0), b"", b"").success());
    assert!(!output(Some(1), b"", b"").success());
    assert!(!output(Some(101), b"", b"").success());
    assert!(!output(Some(-1), b"", b"").success());
    assert!(!output(None, b"", b"").success());
}

#[test]
fn failure_message_joins_both_streams() {
    let compiled = output(Some(101), b"building", b"error[E0308]: mismatched types");
    assert_eq!(
        failure_message(&compiled).unwrap(),
        "building\n-----------\nerror[E0308]: mismatched types"
    );
}

#[test]
fn failure_message_of_empty_streams_is_the_separator() {
    let compiled = output(Some(1), b"", b"");
    assert_eq!(failure_message(&compiled).unwrap(), "\n-----------\n");
}

#[test]
fn failure_message_decodes_utf8() {
    let compiled = output(Some(1), "größe".as_bytes(), "語".as_bytes());
    assert_eq!(failure_message(&compiled).unwrap(), "größe\n-----------\n語");
}

#[test]
fn failure_message_needs_text_in_both_streams() {
    assert!(failure_message(&output(Some(1), &[0xff, 0xfe], b"fine")).is_none());
    assert!(failure_message(&output(Some(1), b"fine", &[0xc3])).is_none());
    assert!(failure_message(&output(Some(1), &[0x80], &[0x80])).is_none());
}

#[test]
fn compile_failure_carries_the_diagnostics() {
    let err = compile_failure(&output(Some(101), b"out", b"err"));
    match err {
        Error::CompileFailed(text) => assert_eq!(text, "out\n-----------\nerr"),
        other => panic!("unexpected error: {:?}", other),
    }
}

#[test]
fn clean_succeeds_on_exit_code_zero() {
    assert!(matches!(clean(output(Some(0), b"Removed 12 files", b"")), Ok(())));
}

#[test]
fn clean_fails_with_the_captured_output() {
    match clean(output(Some(101), b"some", b"error: no Cargo.toml")) {
        Err(Error::CleanFailure(kept)) => {
            assert_eq!(kept.code, Some(101));
            assert_eq!(kept.stdout, b"some");
            assert_eq!(kept.stderr, b"error: no Cargo.toml");
        },
        other => panic!("unexpected result: {:?}", other),
    }
}

#[test]
fn clean_fails_when_a_signal_ended_the_command() {
    match clean(output(None, b"", &[0xff])) {
        Err(Error::CleanFailure(kept)) => {
            assert_eq!(kept.code, None);
            assert_eq!(kept.stderr, vec![0xff]);
        },
        other => panic!("unexpected result: {:?}", other),
    }
}
