use ttydo::command::{
    build_spec, split_command, vec_has_nul, CommandSpec, LookupOutcome, SimpleCommand, TTYCommand,
    XChildHandle,
};
use ttydo::XError;

/// A nonexistent executable name: the launch fails with
/// `CommandNotFound` before any process work, and no handle is produced.
#[test]
fn nonexistent_command_not_found() {
    let cmd = TTYCommand::new(String::from("does-not-exist-xyz"), Vec::new(), &Vec::new());
    match cmd.prepare() {
        Err(e) => assert_eq!(e, XError::CommandNotFound),
        Ok(_) => panic!("a nonexistent command must not resolve"),
    }
}

/// A resolvable absolute path prepares successfully: the argument vector
/// is the resolved path followed by the user arguments, and the captured
/// environment rides along unchanged.
#[test]
fn absolute_path_prepares() {
    let pairs = vec![(String::from("MARKER"), String::from("42"))];
    let cmd = TTYCommand::new(
        String::from("/bin/sh"),
        vec![String::from("-c"), String::from("exit 0")],
        &pairs,
    );
    let spec: CommandSpec = cmd.prepare().expect("/bin/sh should resolve");
    assert_eq!(spec.argv.len(), 3);
    assert_eq!(spec.argv[0], spec.program);
    assert_eq!(spec.argv[1], "-c");
    assert_eq!(spec.argv[2], "exit 0");
    assert_eq!(spec.env, vec![String::from("MARKER=42")]);
}

/// The environment snapshot is formatted entry by entry as `KEY=VALUE`,
/// in order, so a marker variable set in the parent is handed to the
/// child with the same value.
#[test]
fn environment_pairs_are_formatted() {
    let pairs = vec![
        (String::from("MARKER"), String::from("observed")),
        (String::from("PATH"), String::from("/bin:/usr/bin")),
        (String::from("EMPTY"), String::from("")),
    ];
    let cmd = TTYCommand::new(String::from("x"), Vec::new(), &pairs);
    assert_eq!(
        cmd.env,
        vec![
            String::from("MARKER=observed"),
            String::from("PATH=/bin:/usr/bin"),
            String::from("EMPTY="),
        ]
    );
}

/// A NUL anywhere in the arguments is an encoding error: such a string
/// cannot be carried into exec.
#[test]
fn nul_in_argument_is_encoding_error() {
    let args = vec![String::from("ok"), String::from("bad\0arg")];
    let r = build_spec(LookupOutcome::Found(String::from("/bin/true")), &args, &Vec::new());
    match r {
        Err(e) => assert_eq!(e, XError::EncodingError),
        Ok(_) => panic!("a NUL-carrying argument must be rejected"),
    }
}

/// A NUL in an environment entry is likewise an encoding error, and an
/// unrepresentable resolved path is one too.
#[test]
fn nul_in_environment_is_encoding_error() {
    let env = vec![String::from("KEY=val\0ue")];
    let r = build_spec(LookupOutcome::Found(String::from("/bin/true")), &Vec::new(), &env);
    match r {
        Err(e) => assert_eq!(e, XError::EncodingError),
        Ok(_) => panic!("a NUL-carrying environment entry must be rejected"),
    }
    let r2 = build_spec(LookupOutcome::Unencodable, &Vec::new(), &Vec::new());
    match r2 {
        Err(e) => assert_eq!(e, XError::EncodingError),
        Ok(_) => panic!("an unrepresentable path must be rejected"),
    }
}

/// The NUL scan itself: clean vectors pass, a NUL in any entry is found.
#[test]
fn nul_scan() {
    assert!(!vec_has_nul(&vec![String::from("a"), String::from("")]));
    assert!(vec_has_nul(&vec![String::from("a"), String::from("\0")]));
}

/// A failed resolution outcome maps to `CommandNotFound`.
#[test]
fn lookup_failure_maps_to_not_found() {
    let r = build_spec(LookupOutcome::NotFound, &Vec::new(), &Vec::new());
    match r {
        Err(e) => assert_eq!(e, XError::CommandNotFound),
        Ok(_) => panic!("a failed lookup must not build a spec"),
    }
}

/// An empty command vector is a usage error, before any process work; a
/// non-empty one splits into the name and the remaining arguments.
#[test]
fn empty_command_is_usage_error() {
    match split_command(&Vec::new()) {
        Err(e) => assert_eq!(e, XError::EmptyCommand),
        Ok(_) => panic!("an empty command must be refused"),
    }
    let (exec, rest) = split_command(&vec![
        String::from("echo"),
        String::from("hello"),
        String::from("world"),
    ])
    .expect("a non-empty command splits");
    assert_eq!(exec, "echo");
    assert_eq!(rest, vec![String::from("hello"), String::from("world")]);
}

/// The child handle wraps exactly what the fork produced.
#[test]
fn child_handle_holds_identifiers() {
    let h = XChildHandle::new(1234, 5, 7).expect("handle construction succeeds");
    assert_eq!(h.pid(), 1234);
    assert_eq!(h.stdout_fd, 5);
    assert_eq!(h.stderr_fd, 7);
}

/// The passthrough command wraps its vector unchanged.
#[test]
fn simple_command_wraps_vector() {
    let sc = SimpleCommand::new(vec![String::from("ls"), String::from("-l")])
        .expect("construction succeeds");
    assert_eq!(sc.command(), &vec![String::from("ls"), String::from("-l")]);
}
