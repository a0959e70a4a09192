use std::cmp::Ordering;
use std::sync::Arc;

use shell_ide::error::ShellError;
use shell_ide::fs::{FileContents, FileInfo, FileSystem, ProjectInfo};
use shell_ide::listing::compare_entries;
use shell_ide::security::SecurityPolicy;

fn file_system() -> FileSystem {
    let mut policy = SecurityPolicy::for_directories(Some("/home/alice".to_string()), None, None, None);
    policy.max_file_size = 10;
    FileSystem::new(Arc::new(policy))
}

fn entry(name: &str, is_directory: bool) -> FileInfo {
    FileInfo::of(&format!("/home/alice/{}", name), is_directory, 1, None)
}

fn names(entries: &[FileInfo]) -> Vec<String> {
    entries.iter().map(|e| e.name.clone()).collect()
}

#[test]
fn paths_are_validated_before_anything_else() {
    let fs = file_system();
    assert!(fs.validate("a.txt", "/home/alice/a.txt").is_ok());
    match fs.validate("/etc/passwd", "/etc/passwd") {
        Err(ShellError::Security(text)) => assert_eq!(text, "Access denied: /etc/passwd"),
        other => panic!("wrong answer: {:?}", other),
    }
    assert!(fs.read_file("a.txt", "/home/alice/a.txt", 10).is_ok());
    assert!(fs.delete_file("a.txt", "/home/alice/a.txt").is_ok());
    assert!(fs.create_directory("d", "/home/alice/d").is_ok());
    assert!(matches!(fs.delete_file("/bin/sh", "/bin/sh"), Err(ShellError::Security(_))));
    assert!(matches!(fs.create_directory("/sbin/d", "/sbin/d"), Err(ShellError::Security(_))));
    assert!(matches!(fs.read_file("/etc/big", "/etc/big", 11), Err(ShellError::Security(_))));
    let info = fs.get_info("a.txt", "/home/alice/a.txt", false, 3, None).expect("info");
    assert_eq!(info.name, "a.txt");
    assert_eq!(info.extension.as_deref(), Some("txt"));
    assert!(matches!(
        fs.get_info("/etc/passwd", "/etc/passwd", false, 3, None),
        Err(ShellError::Security(_))
    ));
    match fs.read_file("a.txt", "/home/alice/a.txt", 11) {
        Err(ShellError::Security(text)) => {
            assert_eq!(text, "File too large: 11 bytes (max: 10 bytes)")
        }
        other => panic!("wrong answer: {:?}", other),
    }
}

#[test]
fn writes_are_held_to_the_size_in_bytes() {
    let fs = file_system();
    assert!(fs.write_file("a", "/home/alice/a", "0123456789").is_ok());
    assert!(fs.write_file("a", "/home/alice/a", "").is_ok());
    match fs.write_file("a", "/home/alice/a", "0123456789!") {
        Err(ShellError::Security(text)) => {
            assert_eq!(text, "File too large: 11 bytes (max: 10 bytes)")
        }
        other => panic!("wrong answer: {:?}", other),
    }
    // six characters, twelve bytes
    match fs.write_file("a", "/home/alice/a", "éééééé") {
        Err(ShellError::Security(text)) => {
            assert_eq!(text, "File too large: 12 bytes (max: 10 bytes)")
        }
        other => panic!("wrong answer: {:?}", other),
    }
    // the place is judged first
    match fs.write_file("/etc/x", "/etc/x", "0123456789!") {
        Err(ShellError::Security(text)) => assert_eq!(text, "Access denied: /etc/x"),
        other => panic!("wrong answer: {:?}", other),
    }
}

#[test]
fn files_are_created_only_where_nothing_is() {
    let fs = file_system();
    assert!(fs.create_file("n", "/home/alice/n", false).is_ok());
    match fs.create_file("n", "/home/alice/n", true) {
        Err(ShellError::Filesystem(text)) => assert_eq!(text, "File already exists"),
        other => panic!("wrong answer: {:?}", other),
    }
    match fs.create_file("/usr/n", "/usr/n", true) {
        Err(ShellError::Security(text)) => assert_eq!(text, "Access denied: /usr/n"),
        other => panic!("wrong answer: {:?}", other),
    }
}

#[test]
fn existence_is_told_only_of_allowed_paths() {
    let fs = file_system();
    assert_eq!(fs.path_exists("a", "/home/alice/a", true).unwrap(), true);
    assert_eq!(fs.path_exists("a", "/home/alice/a", false).unwrap(), false);
    assert!(matches!(
        fs.path_exists("/etc/shadow", "/etc/shadow", true),
        Err(ShellError::Security(_))
    ));
    assert!(fs.watch_directory("/anywhere").is_ok());
}

#[test]
fn file_contents_are_utf8() {
    let contents = FileContents::utf8("/home/alice/a.txt", "text".to_string());
    assert_eq!(contents.path, "/home/alice/a.txt");
    assert_eq!(contents.content, "text");
    assert_eq!(contents.encoding, "utf-8");
}

#[test]
fn file_info_takes_name_and_extension_from_the_path() {
    let info = FileInfo::of("/home/alice/src/main.rs", false, 120, Some("t".to_string()));
    assert_eq!(info.path, "/home/alice/src/main.rs");
    assert_eq!(info.name, "main.rs");
    assert_eq!(info.extension.as_deref(), Some("rs"));
    assert!(!info.is_directory);
    assert_eq!(info.size, 120);
    assert_eq!(info.modified.as_deref(), Some("t"));
    let dir = FileInfo::of("/home/alice/src/", true, 0, None);
    assert_eq!(dir.name, "src");
    assert_eq!(dir.extension, None);
    let root = FileInfo::of("/", true, 0, None);
    assert_eq!(root.name, "");
    let hidden = FileInfo::of("/home/alice/.bashrc", false, 1, None);
    assert_eq!(hidden.name, ".bashrc");
    assert_eq!(hidden.extension, None);
    let up = FileInfo::of("/home/alice/..", true, 0, None);
    assert_eq!(up.name, "");
}

#[test]
fn listing_puts_directories_first_and_ignores_case() {
    let fs = file_system();
    let entries = vec![
        entry("zebra.txt", false),
        entry("Makefile", false),
        entry("src", true),
        entry("apple.rs", false),
        entry("Docs", true),
        entry("build", true),
    ];
    let listed = fs.list_directory("/home/alice", "/home/alice", entries).expect("a listing");
    assert_eq!(listed.path, "/home/alice");
    assert_eq!(
        names(&listed.entries),
        vec!["build", "Docs", "src", "apple.rs", "Makefile", "zebra.txt"]
    );
    let empty = fs.list_directory("/home/alice", "/home/alice", Vec::new()).expect("a listing");
    assert!(empty.entries.is_empty());
    match fs.list_directory("/etc", "/etc", vec![entry("x", false)]) {
        Err(ShellError::Security(text)) => assert_eq!(text, "Access denied: /etc"),
        other => panic!("wrong answer: {:?}", other),
    }
}

#[test]
fn entries_are_compared_by_kind_then_name() {
    assert_eq!(compare_entries(&entry("z", true), &entry("a", false)), Ordering::Less);
    assert_eq!(compare_entries(&entry("a", false), &entry("z", true)), Ordering::Greater);
    assert_eq!(compare_entries(&entry("a", false), &entry("B", false)), Ordering::Less);
    assert_eq!(compare_entries(&entry("B", true), &entry("a", true)), Ordering::Greater);
    assert_eq!(compare_entries(&entry("Readme", false), &entry("README", false)), Ordering::Equal);
    assert_eq!(compare_entries(&entry("ab", false), &entry("abc", false)), Ordering::Less);
    assert_eq!(compare_entries(&entry("é", false), &entry("z", false)), Ordering::Greater);
}

#[test]
fn project_is_told_by_its_files() {
    let files: Vec<String> = ["README.md", "Cargo.toml", "src", "lesson.yaml"]
        .iter()
        .map(|s| s.to_string())
        .collect();
    let info = ProjectInfo::detect("/home/alice/projects/demo", &files);
    assert_eq!(info.path, "/home/alice/projects/demo");
    assert_eq!(info.name, "demo");
    assert_eq!(info.language.as_deref(), Some("rust"));
    assert_eq!(info.framework, None);
    assert!(info.has_lesson);
    assert_eq!(info.files, files);
}

#[test]
fn every_marker_names_its_language() {
    let detect = |file: &str| ProjectInfo::detect("/p", &vec![file.to_string()]).language;
    assert_eq!(detect("package.json").as_deref(), Some("javascript"));
    assert_eq!(detect("Cargo.toml").as_deref(), Some("rust"));
    assert_eq!(detect("requirements.txt").as_deref(), Some("python"));
    assert_eq!(detect("pyproject.toml").as_deref(), Some("python"));
    assert_eq!(detect("setup.py").as_deref(), Some("python"));
    assert_eq!(detect("go.mod").as_deref(), Some("go"));
    assert_eq!(detect("pom.xml").as_deref(), Some("java"));
    assert_eq!(detect("build.gradle").as_deref(), Some("java"));
    assert_eq!(detect("cargo.toml"), None);
    assert_eq!(detect("main.py"), None);
}

#[test]
fn last_marker_decides_the_language() {
    let files = |list: &[&str]| list.iter().map(|s| s.to_string()).collect::<Vec<String>>();
    let info = ProjectInfo::detect("/p", &files(&["package.json", "x", "go.mod", "y"]));
    assert_eq!(info.language.as_deref(), Some("go"));
    assert!(!info.has_lesson);
    let info = ProjectInfo::detect("/p", &files(&["go.mod", "lesson.json", "package.json"]));
    assert_eq!(info.language.as_deref(), Some("javascript"));
    assert!(info.has_lesson);
    let info = ProjectInfo::detect("/", &Vec::new());
    assert_eq!(info.name, "Untitled");
    assert_eq!(info.language, None);
    assert!(!info.has_lesson);
    assert!(info.files.is_empty());
}
