//! The command line, the files a program starts with, and the notices of
//! source files.

use litebox::headers::{
    add_header, can_add_header, copyright_header, is_skipped, required_prefix, HeaderVerdict,
};
use litebox::runner::command::{
    c_string, tar_refusal, task_params, CliArgs, ProgramSource, RunError,
};
use litebox::runner::files::{
    initial_entries, owner_of, HostNode, InitialEntry, InitialNode, UserInfo, TMP_MODE,
};
use litebox::runner::launch::{run, LaunchError};
use litebox::text::decimal;

fn args(program: &[&str]) -> CliArgs {
    CliArgs {
        program_and_arguments: program.iter().map(|s| s.to_string()).collect(),
        environment_variables: vec!["A=1".to_string()],
        forward_environment_variables: false,
        unstable: false,
        initial_files: None,
        program_from_tar: false,
    }
}

#[test]
fn programs_come_from_the_host_or_an_archive() {
    assert_eq!(args(&["ls"]).program_source(), Ok(ProgramSource::Host));
    assert_eq!(args(&[]).program_source(), Err(RunError::MissingProgram));
    let mut a = args(&["/bin/ls"]);
    a.program_from_tar = true;
    assert_eq!(a.program_source(), Ok(ProgramSource::Tar));
    a.program_and_arguments[0] = "ls".to_string();
    assert_eq!(a.program_source(), Err(RunError::RelativeGuestPath));
    a.program_and_arguments[0] = String::new();
    assert_eq!(a.program_source(), Err(RunError::RelativeGuestPath));
    assert_eq!(RunError::MissingProgram.message(), "missing program path");
}

#[test]
fn options_need_others() {
    let mut a = args(&["/bin/ls"]);
    assert_eq!(a.check_options(), None);
    a.program_from_tar = true;
    assert_eq!(a.check_options(), Some(RunError::MissingOption));
    a.unstable = true;
    assert_eq!(a.check_options(), Some(RunError::MissingOption));
    a.initial_files = Some("files.tar".to_string());
    assert_eq!(a.check_options(), None);
    a.program_from_tar = false;
    assert_eq!(a.check_options(), None);
    a.unstable = false;
    assert_eq!(a.check_options(), Some(RunError::MissingOption));
}

#[test]
fn variables_of_the_host_come_last() {
    let host = vec![
        ("HOME".to_string(), "/root".to_string()),
        ("E".to_string(), String::new()),
    ];
    let mut a = args(&["ls"]);
    assert_eq!(a.environment(&host), vec!["A=1"]);
    a.forward_environment_variables = true;
    assert_eq!(a.environment(&host), vec!["A=1", "HOME=/root", "E="]);
}

#[test]
fn archives_are_known_by_their_extension() {
    assert_eq!(tar_refusal("files.tar", Some("tar")), None);
    assert_eq!(
        tar_refusal("files.zip", Some("zip")),
        Some("Expected a .tar file, found files.zip".to_string())
    );
    assert_eq!(
        tar_refusal("files", None),
        Some("Expected a .tar file, found files".to_string())
    );
}

#[test]
fn strings_end_with_a_zero() {
    assert_eq!(c_string("ab"), Ok(vec![97, 98, 0]));
    assert_eq!(c_string(""), Ok(vec![0]));
    assert_eq!(c_string("\u{e9}"), Ok(vec![0xc3, 0xa9, 0]));
    assert_eq!(c_string("a\0b"), Err(RunError::InteriorNul(1)));
    assert_eq!(c_string("\u{e9}\0\0"), Err(RunError::InteriorNul(2)));
    assert_eq!(
        RunError::InteriorNul(12).message(),
        "nul byte found in provided data at position: 12"
    );
    let p = task_params();
    assert_eq!((p.pid, p.ppid, p.uid, p.euid, p.gid, p.egid), (1, 0, 1000, 1000, 1000, 1000));
}

fn node(path: &str, mode: u32, user: u32) -> HostNode {
    HostNode {
        path: path.to_string(),
        mode,
        user,
    }
}

/// Path, mode, user and, of a file, the bytes.
fn show(e: &InitialEntry) -> (&str, u32, u16, Option<&[u8]>) {
    match &e.node {
        InitialNode::Directory { mode, owner } => (&e.path, *mode, owner.user, None),
        InitialNode::File { mode, owner, data } => {
            (&e.path, *mode, owner.user, Some(data.as_slice()))
        }
    }
}

#[test]
fn programs_find_their_directories() {
    let nodes = vec![
        node("/usr", 0o755, 0),
        node("/usr/bin", 0o750, 501),
        node("/usr/bin/ls", 0o700, 0),
    ];
    let entries = initial_entries(nodes, Some(vec![1, 2])).unwrap();
    assert_eq!(
        entries.iter().map(show).collect::<Vec<_>>(),
        vec![
            ("/usr", 0o755, 0, None),
            ("/usr/bin", 0o750, 1000, None),
            ("/usr/bin/ls", 0o700, 1000, Some(&[1u8, 2][..])),
            ("/tmp", TMP_MODE, 0, None),
        ]
    );
}

#[test]
fn temporary_files_are_open_to_all() {
    let nodes = vec![node("/tmp", 0o1755, 501), node("/tmp/ls", 0o700, 501)];
    let entries = initial_entries(nodes, Some(vec![])).unwrap();
    assert_eq!(
        entries.iter().map(show).collect::<Vec<_>>(),
        vec![
            ("/tmp", 0o777, 1000, None),
            ("/tmp/ls", 0o700, 1000, Some(&[][..])),
        ]
    );
    let entries = initial_entries(vec![], None).unwrap();
    assert_eq!(
        entries.iter().map(show).collect::<Vec<_>>(),
        vec![("/tmp", 0o777, 0, None)]
    );
    assert!(matches!(
        initial_entries(vec![], Some(vec![])),
        Err(RunError::NoAncestors)
    ));
    assert!(matches!(
        initial_entries(vec![node("/tmp", 0o700, 0)], Some(vec![])),
        Err(RunError::TmpIsNoDirectory)
    ));
}

#[test]
fn programs_are_started_with_all_they_need() {
    let nodes = || vec![node("/bin", 0o755, 0), node("/bin/ls", 0o755, 0)];
    let host = vec![("B".to_string(), "2".to_string())];
    let mut a = args(&["ls", "-l"]);
    a.forward_environment_variables = true;
    let launch = run(&a, nodes(), vec![7], None, &host).unwrap();
    assert_eq!(launch.entries.len(), 3);
    assert_eq!(show(&launch.entries[1]).3, Some(&[7u8][..]));
    assert_eq!(launch.argv, vec![b"ls\0".to_vec(), b"-l\0".to_vec()]);
    assert_eq!(launch.envp, vec![b"A=1\0".to_vec(), b"B=2\0".to_vec()]);
    assert_eq!(launch.params, task_params());
    // A program in the archive brings no files of the host.
    let mut b = args(&["/bin/ls"]);
    b.program_from_tar = true;
    b.initial_files = Some("files.tar".to_string());
    let launch = run(&b, nodes(), vec![7], Some("tar"), &host).unwrap();
    assert_eq!(launch.entries.len(), 1);
    assert_eq!(launch.entries[0].path, "/tmp");
    assert_eq!(launch.envp, vec![b"A=1\0".to_vec()]);
}

#[test]
fn the_first_reason_not_to_start_is_told() {
    let nodes = || vec![node("/bin", 0o755, 0), node("/bin/ls", 0o755, 0)];
    let error =
        |a: &CliArgs, nodes, ext| run(a, nodes, vec![], ext, &vec![]).unwrap_err();
    let mut a = args(&["a\0b"]);
    assert_eq!(
        error(&a, nodes(), None),
        LaunchError::Run(RunError::InteriorNul(1))
    );
    assert_eq!(
        error(&a, vec![], None),
        LaunchError::Run(RunError::NoAncestors)
    );
    a.initial_files = Some("files.zip".to_string());
    let refused = error(&a, vec![], Some("zip"));
    assert_eq!(
        refused.message(),
        "Expected a .tar file, found files.zip"
    );
    assert_eq!(
        error(&a, vec![], Some("tar")),
        LaunchError::Run(RunError::NoAncestors)
    );
    a.program_and_arguments.clear();
    let missing = error(&a, vec![], Some("zip"));
    assert_eq!(missing, LaunchError::Run(RunError::MissingProgram));
    assert_eq!(missing.message(), "missing program path");
    let mut c = args(&["ls", "ok", "xyz\0", "\0"]);
    c.environment_variables.push("\0".to_string());
    assert_eq!(
        error(&c, nodes(), None),
        LaunchError::Run(RunError::InteriorNul(3))
    );
    let mut b = args(&["ls"]);
    b.environment_variables.push("\0".to_string());
    assert_eq!(
        error(&b, nodes(), None),
        LaunchError::Run(RunError::InteriorNul(0))
    );
}

#[test]
fn only_the_superusers_files_stay_theirs() {
    assert_eq!(owner_of(0, 0), UserInfo { user: 0, group: 0 });
    let guest = UserInfo {
        user: 1000,
        group: 1000,
    };
    assert_eq!(owner_of(0, 5), guest);
    assert_eq!(owner_of(5, 0), guest);
}

#[test]
fn source_files_start_with_a_notice() {
    let ext = |s: &str| Some(s.to_string());
    let prefix = required_prefix(&"rs".to_string()).unwrap();
    assert_eq!(
        prefix,
        "// Copyright (c) Microsoft Corporation.\n// Licensed under the MIT license.\n\n"
    );
    assert_eq!(required_prefix(&"exe".to_string()), None);
    assert_eq!(required_prefix(&"toml".to_string()), Some(""));
    let code = b"fn main() {}";
    assert_eq!(
        copyright_header(ext("rs"), code),
        HeaderVerdict::Missing
    );
    assert!(can_add_header(code));
    let with = add_header(prefix, code);
    assert_eq!(copyright_header(ext("rs"), &with), HeaderVerdict::Present);
    assert_eq!(
        copyright_header(ext("sh"), &with),
        HeaderVerdict::Missing
    );
    assert!(!can_add_header(&with));
    assert!(!can_add_header(b"Copyright 2020"));
    assert!(!can_add_header(b"licensed"));
    assert!(can_add_header(b"copy right"));
    assert!(can_add_header(b""));
    assert_eq!(
        copyright_header(None, code),
        HeaderVerdict::NoExtension
    );
    assert_eq!(
        copyright_header(ext("exe"), code),
        HeaderVerdict::UnknownExtension
    );
    assert_eq!(copyright_header(ext("md"), b""), HeaderVerdict::Present);
    assert!(is_skipped(&"LICENSE".to_string()));
    assert!(!is_skipped(&"src/lib.rs".to_string()));
}

#[test]
fn numbers_are_written_in_decimal() {
    assert_eq!(decimal(0), "0");
    assert_eq!(decimal(9), "9");
    assert_eq!(decimal(10), "10");
    assert_eq!(decimal(u64::MAX), u64::MAX.to_string());
}
