use shell_ide::error::ShellError;
use shell_ide::security::{
    generate_secure_id, secure_id_from, secure_id_of, PathSanitizer, SecurityPolicy,
    DEFAULT_MAX_FILE_SIZE, DEFAULT_MAX_FILES_PER_PROJECT,
};

fn policy() -> SecurityPolicy {
    SecurityPolicy::for_directories(
        Some("/home/alice".to_string()),
        Some("/home/alice/Documents".to_string()),
        None,
        Some("/mnt/downloads".to_string()),
    )
}

#[test]
fn test_path_security() {
    let policy = SecurityPolicy::default();

    // These should be denied
    assert!(!policy.is_path_allowed("/etc/passwd"));
    assert!(!policy.is_path_allowed("/usr/bin/sh"));

    // Executable extensions
    assert!(policy.executable_extensions.contains(&"py".to_string()));
    assert!(policy.executable_extensions.contains(&"js".to_string()));
}

#[test]
fn default_policy_is_made_of_the_users_directories() {
    let policy = policy();
    assert_eq!(
        policy.allowed_paths,
        vec![
            "/home/alice".to_string(),
            "/home/alice/Documents".to_string(),
            ".".to_string(),
            "/mnt/downloads".to_string(),
        ]
    );
    assert_eq!(
        policy.denied_paths,
        vec![
            "/etc".to_string(),
            "/usr".to_string(),
            "/bin".to_string(),
            "/sbin".to_string(),
            "/System".to_string(),
            "/Library".to_string(),
        ]
    );
    assert_eq!(
        policy.executable_extensions,
        vec!["py", "js", "ts", "rb", "go", "rs", "java", "c", "cpp", "sh"]
            .into_iter()
            .map(|s| s.to_string())
            .collect::<Vec<String>>()
    );
    assert_eq!(policy.max_file_size, 10 * 1024 * 1024);
    assert_eq!(DEFAULT_MAX_FILE_SIZE, 10_485_760);
    assert_eq!(policy.max_files_per_project, 10_000);
    assert_eq!(DEFAULT_MAX_FILES_PER_PROJECT, 10_000);
    assert!(!policy.network_policy.allow_network);
    assert!(policy.network_policy.allowed_hosts.is_empty());
    assert!(policy.network_policy.blocked_hosts.is_empty());
    assert!(policy.plugin_policy.allow_plugins);
    assert!(!policy.plugin_policy.require_signatures);
    assert_eq!(policy.plugin_policy.trusted_publishers, vec!["shell.dev".to_string()]);
}

#[test]
fn default_policy_of_the_process_has_four_allowed_directories() {
    let policy = SecurityPolicy::default();
    assert_eq!(policy.allowed_paths.len(), 4);
    assert_eq!(policy.denied_paths.len(), 6);
    assert_eq!(policy.max_file_size, 10_485_760);
}

#[test]
fn paths_are_matched_by_whole_components() {
    let policy = policy();
    assert!(policy.is_path_allowed("/home/alice"));
    assert!(policy.is_path_allowed("/home/alice/project/main.py"));
    assert!(policy.is_path_allowed("/mnt/downloads/x"));
    assert!(!policy.is_path_allowed("/home/alicia/secret"));
    assert!(!policy.is_path_allowed("/home"));
    assert!(!policy.is_path_allowed("/etcetera"));
    assert!(!policy.is_path_allowed("/var/log"));
    assert!(!policy.is_path_allowed(""));
}

#[test]
fn denied_goes_before_allowed() {
    let mut policy = policy();
    policy.allowed_paths.push("/usr".to_string());
    assert!(!policy.is_path_allowed("/usr/local/bin/tool"));
    policy.denied_paths.push("/home/alice/private".to_string());
    assert!(!policy.is_path_allowed("/home/alice/private/key"));
    assert!(policy.is_path_allowed("/home/alice/public/key"));
}

#[test]
fn refused_path_is_named_as_it_was_given() {
    let policy = policy();
    assert!(policy.validate_path("notes.txt", "/home/alice/notes.txt").is_ok());
    match policy.validate_path("../../etc/passwd", "/etc/passwd") {
        Err(ShellError::Security(text)) => {
            assert_eq!(text, "Access denied: ../../etc/passwd")
        }
        other => panic!("wrong answer: {:?}", other),
    }
}

#[test]
fn only_sources_in_allowed_places_may_run() {
    let policy = policy();
    assert!(policy.can_execute("/home/alice/run.py", "/home/alice/run.py"));
    assert!(policy.can_execute("/home/alice/a.b.sh", "/home/alice/a.b.sh"));
    assert!(!policy.can_execute("/home/alice/run.exe", "/home/alice/run.exe"));
    assert!(!policy.can_execute("/home/alice/run", "/home/alice/run"));
    assert!(!policy.can_execute("/home/alice/.py", "/home/alice/.py"));
    assert!(!policy.can_execute("/home/alice/run.PY", "/home/alice/run.PY"));
    assert!(!policy.can_execute("/usr/bin/run.py", "/usr/bin/run.py"));
    // the place is judged as resolved, the extension as given
    assert!(!policy.can_execute("/home/alice/link.py", "/etc/real.py"));
    assert!(policy.can_execute("/home/alice/link.py", "/home/alice/real"));
    assert!(policy.has_executable_extension(Some("rs".to_string())));
    assert!(!policy.has_executable_extension(Some("txt".to_string())));
    assert!(!policy.has_executable_extension(None));
}

#[test]
fn file_size_is_held_to_the_limit() {
    let policy = policy();
    assert!(policy.check_file_size(0).is_ok());
    assert!(policy.check_file_size(10_485_760).is_ok());
    match policy.check_file_size(10_485_761) {
        Err(ShellError::Security(text)) => assert_eq!(
            text,
            "File too large: 10485761 bytes (max: 10485760 bytes)"
        ),
        other => panic!("wrong answer: {:?}", other),
    }
    let mut small = policy;
    small.max_file_size = 0;
    assert!(small.check_file_size(0).is_ok());
    match small.check_file_size(u64::MAX) {
        Err(ShellError::Security(text)) => assert_eq!(
            text,
            "File too large: 18446744073709551615 bytes (max: 0 bytes)"
        ),
        other => panic!("wrong answer: {:?}", other),
    }
}

#[test]
fn relative_paths_are_cleaned() {
    assert_eq!(PathSanitizer::clean("src/main.rs"), "src/main.rs");
    assert_eq!(PathSanitizer::clean("///src/main.rs"), "src/main.rs");
    assert_eq!(PathSanitizer::clean("\\\\src"), "src");
    assert_eq!(PathSanitizer::clean("/\\x"), "x");
    // slashes go first, backslashes second, and only once each
    assert_eq!(PathSanitizer::clean("\\/x"), "/x");
    assert_eq!(PathSanitizer::clean("../../etc/passwd"), "//etc/passwd");
    assert_eq!(PathSanitizer::clean("a/../b"), "a//b");
    assert_eq!(PathSanitizer::clean("..."), ".");
    assert_eq!(PathSanitizer::clean("...."), "");
    assert_eq!(PathSanitizer::clean(""), "");
}

#[test]
fn candidate_is_the_base_with_the_cleaned_path() {
    assert_eq!(
        PathSanitizer::candidate("/home/alice/project", "/src/../main.rs"),
        "/home/alice/project/src//main.rs"
    );
    assert_eq!(PathSanitizer::candidate("/base", ""), "/base/");
    // an absolute path that survives the cleaning takes the place of the base
    assert_eq!(PathSanitizer::candidate("/base", "\\/etc/passwd"), "/etc/passwd");
}

#[test]
fn sanitize_keeps_paths_inside_their_base() {
    match PathSanitizer::sanitize(
        Some("/home/alice/project/src/main.rs".to_string()),
        Some("/home/alice/project".to_string()),
    ) {
        Ok(path) => assert_eq!(path, "/home/alice/project/src/main.rs"),
        other => panic!("wrong answer: {:?}", other),
    }
    match PathSanitizer::sanitize(
        Some("/etc/passwd".to_string()),
        Some("/home/alice/project".to_string()),
    ) {
        Err(ShellError::Security(text)) => assert_eq!(text, "Path traversal detected"),
        other => panic!("wrong answer: {:?}", other),
    }
    match PathSanitizer::sanitize(None, Some("/home/alice/project".to_string())) {
        Err(ShellError::Security(text)) => assert_eq!(text, "Invalid path"),
        other => panic!("wrong answer: {:?}", other),
    }
    match PathSanitizer::sanitize(None, None) {
        Err(ShellError::Security(text)) => assert_eq!(text, "Invalid path"),
        other => panic!("wrong answer: {:?}", other),
    }
    match PathSanitizer::sanitize(Some("/home/alice/project/x".to_string()), None) {
        Err(ShellError::Security(text)) => assert_eq!(text, "Invalid base path"),
        other => panic!("wrong answer: {:?}", other),
    }
}

#[test]
fn secure_id_is_url_safe_base64_of_sixteen_bytes() {
    assert_eq!(secure_id_of(&vec![0u8; 16]), "AAAAAAAAAAAAAAAAAAAAAA");
    assert_eq!(secure_id_of(&vec![0xffu8; 16]), "_____________________w");
    assert_eq!(
        secure_id_of(&vec![0, 16, 131, 16, 81, 135, 32, 146, 139, 48, 211, 143, 65, 20, 147, 251]),
        "ABCDEFGHIJKLMNOPQRST-w"
    );
}

#[test]
fn secure_id_is_handed_out_only_for_filled_bytes() {
    assert_eq!(
        secure_id_from(true, &vec![0u8; 16]),
        Some("AAAAAAAAAAAAAAAAAAAAAA".to_string())
    );
    assert_eq!(
        secure_id_from(true, &vec![0xffu8; 16]),
        Some("_____________________w".to_string())
    );
    assert_eq!(secure_id_from(false, &vec![0u8; 16]), None);
    assert_eq!(secure_id_from(false, &vec![0xffu8; 16]), None);
}

#[test]
fn generated_ids_are_fresh() {
    let first = generate_secure_id().expect("random bytes");
    let second = generate_secure_id().expect("random bytes");
    assert_eq!(first.len(), 22);
    assert_eq!(second.len(), 22);
    assert_ne!(first, second);
    assert!(first
        .chars()
        .all(|c| c.is_ascii_alphanumeric() || c == '-' || c == '_'));
}
