//! The parts that sessions are made of: paths, commands, policy, errors.

use flatc_gen::path::{cache_root, join, lock_file, source_tree, tool_binary};
use flatc_gen::path::{BINARY, LOCK_SUFFIX, NAMESPACE, SOURCE_DIR};
use flatc_gen::process::{
    check_output, compile_command, configure_command, fetch_command, generate_command, REPOSITORY,
};
use flatc_gen::text::{decimal, signed, words};
use flatc_gen::{Command, Error, ErrorKind, LockPolicy, Output};

fn strings(items: &[&str]) -> Vec<String> {
    items.iter().map(|s| s.to_string()).collect()
}

#[test]
fn join_puts_one_separator_between() {
    assert_eq!(join("/home/alice/.cache", "flatc-gen"), "/home/alice/.cache/flatc-gen");
    assert_eq!(join("a", "b"), "a/b");
    assert_eq!(join("a/b", "c/d"), "a/b/c/d");
}

#[test]
fn join_keeps_a_separator_that_is_there() {
    assert_eq!(join("/tmp/cache/", "flatc-gen"), "/tmp/cache/flatc-gen");
    assert_eq!(join("/", "flatc-gen"), "/flatc-gen");
}

#[test]
fn join_on_empty_base_is_the_name() {
    assert_eq!(join("", "flatc-gen"), "flatc-gen");
    assert_eq!(join("", ""), "");
}

#[test]
fn join_with_empty_name_ends_in_a_separator() {
    assert_eq!(join("/tmp", ""), "/tmp/");
    assert_eq!(join("/tmp/", ""), "/tmp/");
}

#[test]
fn join_with_absolute_name_replaces_the_base() {
    assert_eq!(join("/home/alice", "/etc"), "/etc");
    assert_eq!(join("", "/"), "/");
}

#[test]
fn join_agrees_with_std_on_unix_paths() {
    let bases = ["", "/", "a", "a/", "/a/b", "/a/b/", "ä/ö", "."];
    let names = ["", "c", "c/d", "/c", "/", "flatc-gen.lock", "ü", ".."];
    for base in bases {
        for name in names {
            let expected = std::path::Path::new(base).join(name);
            assert_eq!(join(base, name), expected.to_str().unwrap(), "{:?} {:?}", base, name);
        }
    }
}

#[test]
fn names_are_fixed() {
    assert_eq!(NAMESPACE, "flatc-gen");
    assert_eq!(SOURCE_DIR, "flatbuffers");
    assert_eq!(BINARY, "build/flatc");
    assert_eq!(LOCK_SUFFIX, ".lock");
    assert_eq!(REPOSITORY, "http://github.com/google/flatbuffers");
}

#[test]
fn layout_below_the_cache_directory() {
    let root = cache_root("/home/alice/.cache", NAMESPACE);
    assert_eq!(root, "/home/alice/.cache/flatc-gen");
    assert_eq!(lock_file(&root, NAMESPACE), "/home/alice/.cache/flatc-gen/flatc-gen.lock");
    assert_eq!(source_tree(&root), "/home/alice/.cache/flatc-gen/flatbuffers");
    assert_eq!(tool_binary(&root), "/home/alice/.cache/flatc-gen/flatbuffers/build/flatc");
}

#[test]
fn layout_follows_the_namespace() {
    let root = cache_root("/var/cache", "tool-gen");
    assert_eq!(root, "/var/cache/tool-gen");
    assert_eq!(lock_file(&root, "tool-gen"), "/var/cache/tool-gen/tool-gen.lock");
    assert_eq!(tool_binary(&root), "/var/cache/tool-gen/flatbuffers/build/flatc");
}

#[test]
fn layout_on_windows_style_cache_directory() {
    let root = cache_root("C:\\Users\\Alice\\AppData\\Local", NAMESPACE);
    assert_eq!(root, "C:\\Users\\Alice\\AppData\\Local/flatc-gen");
    assert_eq!(source_tree(&root), "C:\\Users\\Alice\\AppData\\Local/flatc-gen/flatbuffers");
}

#[test]
fn the_four_commands() {
    assert_eq!(
        fetch_command("/c/flatc-gen"),
        Command {
            program: "git".to_string(),
            args: strings(&["clone", "http://github.com/google/flatbuffers"]),
            dir: Some("/c/flatc-gen".to_string()),
        }
    );
    assert_eq!(
        configure_command("/c/flatc-gen/flatbuffers"),
        Command {
            program: "cmake".to_string(),
            args: strings(&["-Bbuild", "-H."]),
            dir: Some("/c/flatc-gen/flatbuffers".to_string()),
        }
    );
    assert_eq!(
        compile_command("/c/flatc-gen/flatbuffers"),
        Command {
            program: "cmake".to_string(),
            args: strings(&["--build", "build", "--target", "flatc"]),
            dir: Some("/c/flatc-gen/flatbuffers".to_string()),
        }
    );
    assert_eq!(
        generate_command("/c/flatc", "out dir", "fbs/addressbook.fbs"),
        Command {
            program: "/c/flatc".to_string(),
            args: strings(&["--rust", "-o", "out dir", "-b", "fbs/addressbook.fbs"]),
            dir: None,
        }
    );
}

#[test]
fn command_line_is_program_and_arguments() {
    assert_eq!(compile_command("/t").line(), "cmake --build build --target flatc");
    let bare = Command { program: "git".to_string(), args: Vec::new(), dir: None };
    assert_eq!(bare.line(), "git");
    assert_eq!(words("a", &strings(&["", "b"])), "a  b");
}

#[test]
fn copies_are_equal() {
    let command = generate_command("/c/flatc", "out", "s.fbs");
    assert_eq!(command.clone(), command);
    let output = Output { code: Some(-1), stdout: vec![0, 255, 10], stderr: b"x".to_vec() };
    assert_eq!(output.clone(), output);
    let error = Error::ExternalCommand { command, output };
    assert_eq!(error.clone(), error);
}

#[test]
fn only_exit_code_zero_is_success() {
    let with = |code| Output { code, stdout: Vec::new(), stderr: Vec::new() };
    assert!(with(Some(0)).success());
    assert!(!with(Some(1)).success());
    assert!(!with(Some(-1)).success());
    assert!(!with(Some(i32::MIN)).success());
    assert!(!with(None).success());
}

#[test]
fn check_output_accepts_success() {
    let command = configure_command("/t");
    let output = Output { code: Some(0), stdout: b"-- Configuring done".to_vec(), stderr: Vec::new() };
    assert_eq!(check_output(&output, &command), Ok(()));
}

#[test]
fn check_output_keeps_what_a_failure_printed() {
    let command = compile_command("/t");
    let output = Output {
        code: Some(2),
        stdout: b"[ 50%] Linking".to_vec(),
        stderr: b"ld: cannot find -lstdc++\n".to_vec(),
    };
    let checked = check_output(&output, &command);
    assert_eq!(
        checked,
        Err(Error::ExternalCommand { command: command.clone(), output: output.clone() })
    );
    match checked {
        Err(Error::ExternalCommand { output: kept, .. }) => {
            assert_eq!(kept.stderr, b"ld: cannot find -lstdc++\n".to_vec())
        }
        other => panic!("{:?}", other),
    }
}

#[test]
fn standard_policy_is_thirty_waits_of_a_second() {
    let policy = LockPolicy::standard();
    assert_eq!(policy, LockPolicy { max_attempts: 30, poll_secs: 1 });
    assert_eq!(LockPolicy::default(), policy);
}

#[test]
fn policy_counts_failures_up_to_its_limit() {
    let policy = LockPolicy::standard();
    assert_eq!(policy.after_failure(0), Some(1));
    assert_eq!(policy.after_failure(1), Some(2));
    assert_eq!(policy.after_failure(29), Some(30));
    assert_eq!(policy.after_failure(30), None);
    assert_eq!(policy.after_failure(31), None);
    assert_eq!(policy.after_failure(u32::MAX), None);
}

#[test]
fn policy_at_the_edges() {
    let never = LockPolicy { max_attempts: 0, poll_secs: 1 };
    assert_eq!(never.after_failure(0), None);
    let long = LockPolicy { max_attempts: u32::MAX, poll_secs: u64::MAX };
    assert_eq!(long.after_failure(u32::MAX - 1), Some(u32::MAX));
    assert_eq!(long.after_failure(u32::MAX), None);
}

#[test]
fn every_error_has_its_kind() {
    let command = fetch_command("/c");
    let output = Output { code: Some(1), stdout: Vec::new(), stderr: Vec::new() };
    assert_eq!(Error::NoCacheDir.kind(), ErrorKind::Environment);
    assert_eq!(Error::CacheRoot { path: "/c".to_string() }.kind(), ErrorKind::Environment);
    assert_eq!(Error::LockFile { path: "/c/l".to_string() }.kind(), ErrorKind::Environment);
    assert_eq!(
        Error::LockTimeout { path: "/c/l".to_string(), waits: 30, poll_secs: 1 }.kind(),
        ErrorKind::LockTimeout
    );
    assert_eq!(Error::Launch { command: command.clone() }.kind(), ErrorKind::Launch);
    assert_eq!(Error::ExternalCommand { command, output }.kind(), ErrorKind::ExternalCommand);
    assert_eq!(Error::MissingInput { path: "s.fbs".to_string() }.kind(), ErrorKind::MissingInput);
}

#[test]
fn every_error_has_its_message() {
    assert_eq!(Error::NoCacheDir.message(), "Cannot get global cache directory");
    assert_eq!(
        Error::CacheRoot { path: "/c/flatc-gen".to_string() }.message(),
        "Failed to create cache directory /c/flatc-gen"
    );
    assert_eq!(
        Error::LockFile { path: "/c/flatc-gen/flatc-gen.lock".to_string() }.message(),
        "Cannot create lock file /c/flatc-gen/flatc-gen.lock"
    );
    assert_eq!(
        Error::LockTimeout { path: "/c/l.lock".to_string(), waits: 30, poll_secs: 1 }.message(),
        "Cannot get lock of /c/l.lock in 30s"
    );
    assert_eq!(
        Error::LockTimeout { path: "l".to_string(), waits: u32::MAX, poll_secs: u64::MAX }
            .message(),
        "Cannot get lock of l in 79228162495817593515539431425s"
    );
    assert_eq!(
        Error::Launch { command: fetch_command("/c") }.message(),
        "Command not found: git clone http://github.com/google/flatbuffers"
    );
    let failed = |code| Error::ExternalCommand {
        command: compile_command("/t"),
        output: Output { code, stdout: b"out".to_vec(), stderr: b"err".to_vec() },
    };
    assert_eq!(failed(Some(2)).message(), "cmake failed with error code: 2");
    assert_eq!(failed(Some(-11)).message(), "cmake failed with error code: -11");
    assert_eq!(failed(None).message(), "cmake was ended by a signal");
    assert_eq!(
        Error::MissingInput { path: "fbs/addressbook.fbs".to_string() }.message(),
        "Flatbuffer file fbs/addressbook.fbs does not exist."
    );
}

#[test]
fn decimal_of_small_and_large_numbers() {
    assert_eq!(decimal(0), "0");
    assert_eq!(decimal(9), "9");
    assert_eq!(decimal(10), "10");
    assert_eq!(decimal(1234567890), "1234567890");
    assert_eq!(decimal(u128::MAX), "340282366920938463463374607431768211455");
    for n in 0u128..2000 {
        assert_eq!(decimal(n), format!("{}", n));
    }
}

#[test]
fn signed_numbers_carry_their_sign() {
    assert_eq!(signed(0), "0");
    assert_eq!(signed(7), "7");
    assert_eq!(signed(-7), "-7");
    assert_eq!(signed(i32::MAX), "2147483647");
    assert_eq!(signed(i32::MIN), "-2147483648");
}
