use llvm_config::DirPath;
use llvm_config::Error;
use llvm_config::ExitStatus;
use llvm_config::LaunchFailure;
use llvm_config::Output;
use llvm_config::QueryOp;
use llvm_config::SpaceSeparatedStrings;
use llvm_config::SpawnOutcome;

fn good_run(stdout: &[u8]) -> SpawnOutcome {
    SpawnOutcome::Completed(Output {
        stdout: stdout.to_vec(),
        stderr: Vec::new(),
        status: ExitStatus { success: true, code: Some(0) },
    })
}

fn failed_run(code: Option<i32>, stderr: &[u8]) -> SpawnOutcome {
    SpawnOutcome::Completed(Output {
        stdout: Vec::new(),
        stderr: stderr.to_vec(),
        status: ExitStatus { success: false, code },
    })
}

fn no_tool() -> SpawnOutcome {
    SpawnOutcome::LaunchFailed(LaunchFailure { message: "No such file or directory".to_string() })
}

fn collect(words: SpaceSeparatedStrings) -> Vec<String> {
    let mut words = words;
    let mut got: Vec<String> = Vec::new();
    while let Some(word) = words.next() {
        got.push(word);
    }
    got
}

#[test]
fn whole_string_decode_trims_surrounding_whitespace() {
    let got: DirPath = llvm_config::prefix(good_run(b"  /usr/local  \n")).unwrap();
    assert_eq!(got.text, "/usr/local");
}

#[test]
fn version_keeps_inner_text_as_it_is() {
    let got = llvm_config::version(good_run(b"10.0.1\n")).unwrap();
    assert_eq!(got, "10.0.1");
}

#[test]
fn libnames_keeps_inner_spacing() {
    let got = llvm_config::libnames(good_run(b" libLLVMCore.a  libLLVMSupport.a \n")).unwrap();
    assert_eq!(got, "libLLVMCore.a  libLLVMSupport.a");
}

#[test]
fn tokenized_decode_splits_the_output() {
    let words = llvm_config::components(good_run(b"core\nsupport  bitreader\n")).unwrap();
    assert_eq!(collect(words), vec!["core", "support", "bitreader"]);
}

#[test]
fn multibyte_output_decodes_intact() {
    let got = llvm_config::version(good_run("véridique\n".as_bytes())).unwrap();
    assert_eq!(got, "véridique");
}

#[test]
fn nonzero_exit_fails_every_operation() {
    let run = || failed_run(Some(1), b"unknown option");
    assert!(matches!(llvm_config::version(run()), Err(Error::BadExitCode(_))));
    assert!(matches!(llvm_config::prefix(run()), Err(Error::BadExitCode(_))));
    assert!(matches!(llvm_config::src_root(run()), Err(Error::BadExitCode(_))));
    assert!(matches!(llvm_config::obj_root(run()), Err(Error::BadExitCode(_))));
    assert!(matches!(llvm_config::bin_dir(run()), Err(Error::BadExitCode(_))));
    assert!(matches!(llvm_config::include_dir(run()), Err(Error::BadExitCode(_))));
    assert!(matches!(llvm_config::lib_dir(run()), Err(Error::BadExitCode(_))));
    assert!(matches!(llvm_config::cmake_dir(run()), Err(Error::BadExitCode(_))));
    assert!(matches!(llvm_config::cpp_flags(run()), Err(Error::BadExitCode(_))));
    assert!(matches!(llvm_config::c_flags(run()), Err(Error::BadExitCode(_))));
    assert!(matches!(llvm_config::cxx_flags(run()), Err(Error::BadExitCode(_))));
    assert!(matches!(llvm_config::ldflags(run()), Err(Error::BadExitCode(_))));
    assert!(matches!(llvm_config::system_libs(run()), Err(Error::BadExitCode(_))));
    assert!(matches!(llvm_config::libs(run()), Err(Error::BadExitCode(_))));
    assert!(matches!(llvm_config::libnames(run()), Err(Error::BadExitCode(_))));
    assert!(matches!(llvm_config::libfiles(run()), Err(Error::BadExitCode(_))));
    assert!(matches!(llvm_config::components(run()), Err(Error::BadExitCode(_))));
}

#[test]
fn nonzero_exit_fails_even_with_output_printed() {
    let run = SpawnOutcome::Completed(Output {
        stdout: b"/usr/local\n".to_vec(),
        stderr: Vec::new(),
        status: ExitStatus { success: false, code: Some(2) },
    });
    assert!(matches!(llvm_config::prefix(run), Err(Error::BadExitCode(_))));
}

#[test]
fn missing_tool_fails_every_operation() {
    assert!(matches!(llvm_config::version(no_tool()), Err(Error::UnableToInvoke(_))));
    assert!(matches!(llvm_config::prefix(no_tool()), Err(Error::UnableToInvoke(_))));
    assert!(matches!(llvm_config::src_root(no_tool()), Err(Error::UnableToInvoke(_))));
    assert!(matches!(llvm_config::obj_root(no_tool()), Err(Error::UnableToInvoke(_))));
    assert!(matches!(llvm_config::bin_dir(no_tool()), Err(Error::UnableToInvoke(_))));
    assert!(matches!(llvm_config::include_dir(no_tool()), Err(Error::UnableToInvoke(_))));
    assert!(matches!(llvm_config::lib_dir(no_tool()), Err(Error::UnableToInvoke(_))));
    assert!(matches!(llvm_config::cmake_dir(no_tool()), Err(Error::UnableToInvoke(_))));
    assert!(matches!(llvm_config::cpp_flags(no_tool()), Err(Error::UnableToInvoke(_))));
    assert!(matches!(llvm_config::c_flags(no_tool()), Err(Error::UnableToInvoke(_))));
    assert!(matches!(llvm_config::cxx_flags(no_tool()), Err(Error::UnableToInvoke(_))));
    assert!(matches!(llvm_config::ldflags(no_tool()), Err(Error::UnableToInvoke(_))));
    assert!(matches!(llvm_config::system_libs(no_tool()), Err(Error::UnableToInvoke(_))));
    assert!(matches!(llvm_config::libs(no_tool()), Err(Error::UnableToInvoke(_))));
    assert!(matches!(llvm_config::libnames(no_tool()), Err(Error::UnableToInvoke(_))));
    assert!(matches!(llvm_config::libfiles(no_tool()), Err(Error::UnableToInvoke(_))));
    assert!(matches!(llvm_config::components(no_tool()), Err(Error::UnableToInvoke(_))));
}

#[test]
fn invalid_bytes_are_a_decoding_error() {
    match llvm_config::version(good_run(&[0xff, 0xfe])) {
        Err(Error::Utf8(d)) => {
            assert_eq!(d.bytes, vec![0xff, 0xfe]);
            assert_eq!(d.valid_up_to, 0);
        },
        other => panic!("expected a decoding error, got {:?}", other),
    }
}

#[test]
fn decoding_error_reports_the_valid_prefix() {
    match llvm_config::components(good_run(b"ok\xff")) {
        Err(Error::Utf8(d)) => {
            assert_eq!(d.bytes, b"ok\xff".to_vec());
            assert_eq!(d.valid_up_to, 2);
        },
        other => panic!("expected a decoding error, got {:?}", other),
    }
}

#[test]
fn bad_exit_keeps_stderr_and_code_for_diagnostics() {
    match llvm_config::libs(failed_run(Some(101), b"component missing")) {
        Err(Error::BadExitCode(out)) => {
            assert_eq!(out.stderr, b"component missing".to_vec());
            assert_eq!(out.status.code, Some(101));
            assert!(!out.status.success);
        },
        other => panic!("expected a bad exit, got {:?}", other),
    }
}

#[test]
fn query_args_hold_one_flag_each() {
    let cases = vec![
        (QueryOp::Version, "--verson"),
        (QueryOp::Prefix, "--prefix"),
        (QueryOp::SrcRoot, "--src-root"),
        (QueryOp::ObjRoot, "--obj-root"),
        (QueryOp::BinDir, "--bin-dir"),
        (QueryOp::IncludeDir, "--include-dir"),
        (QueryOp::LibDir, "--lib-dir"),
        (QueryOp::CmakeDir, "--cmake-dir"),
        (QueryOp::CppFlags, "--cppflags"),
        (QueryOp::CFlags, "--cflags"),
        (QueryOp::CxxFlags, "--cxxflags"),
        (QueryOp::Ldflags, "--ldflags"),
        (QueryOp::SystemLibs, "--system-libs"),
        (QueryOp::Libs, "--libs"),
        (QueryOp::Libnames, "--libnames"),
        (QueryOp::Libfiles, "--libfiles"),
        (QueryOp::Components, "--components"),
    ];
    for (op, flag) in cases {
        let args = llvm_config::query_args(op);
        assert_eq!(args.len(), 1);
        assert_eq!(args[0], flag);
    }
}

#[test]
fn messages_render_each_variant() {
    let utf8 = match llvm_config::version(good_run(&[0x80])) {
        Err(e) => e,
        other => panic!("expected an error, got {:?}", other),
    };
    assert_eq!(utf8.message(), "The output wasn't valid UTF-8");

    let missing = match llvm_config::version(no_tool()) {
        Err(e) => e,
        other => panic!("expected an error, got {:?}", other),
    };
    assert_eq!(missing.message(), "Unable to invoke llvm-config. Is it installed and on your $PATH?");

    let bad = match llvm_config::version(failed_run(Some(101), b"")) {
        Err(e) => e,
        other => panic!("expected an error, got {:?}", other),
    };
    assert_eq!(bad.message(), "llvm-config ran unsuccessfully with exit code 101");

    let signalled = match llvm_config::version(failed_run(None, b"")) {
        Err(e) => e,
        other => panic!("expected an error, got {:?}", other),
    };
    assert_eq!(signalled.message(), "llvm-config ran unsuccessfully");

    let negative = match llvm_config::version(failed_run(Some(-7), b"")) {
        Err(e) => e,
        other => panic!("expected an error, got {:?}", other),
    };
    assert_eq!(negative.message(), "llvm-config ran unsuccessfully with exit code -7");
}
