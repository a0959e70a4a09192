use shell_ide::commands::execution::{
    execution_request, get_execution_status, get_language_image, get_run_command, language_image,
    run_code, run_command, stop_execution, RunCodeRequest,
};
use shell_ide::commands::grading::{
    local_tests_to_run, submit_for_grading, CloudGradingRequest, GradingSource, ProjectFile,
};
use shell_ide::commands::lessons::{
    is_lesson_file, lesson_format, load_lesson, save_lesson, validate_lesson, LessonFormat,
    LessonOutline, LoadFailure,
};
use shell_ide::commands::lsp::{
    arguments_from, custom_service, get_available_servers, get_known_servers, known_service,
    service_id, start_language_server, stop_language_server, LspServerInfo,
};
use shell_ide::commands::settings::{get_settings, Settings};
use shell_ide::db::LspConfig;
use shell_ide::docker::engine::{EngineAction, EngineEvent};
use shell_ide::docker::manager::ConnectOutcome;
use shell_ide::docker::DockerManager;
use shell_ide::error::ShellError;
use shell_ide::features::FeatureFlags;
use shell_ide::services::ServiceType;

fn run_request(language: &str) -> RunCodeRequest {
    RunCodeRequest {
        language: language.to_string(),
        code: "print('hi')".to_string(),
        project_path: "/home/alice/project".to_string(),
        entry_point: None,
        stdin: None,
        env: None,
        step_mode: None,
        trace_io: None,
        timeout: None,
    }
}

fn strings(list: &[&str]) -> Vec<String> {
    list.iter().map(|s| s.to_string()).collect()
}

#[test]
fn every_language_has_its_image() {
    let table = [
        ("python", "python:3.12-slim"),
        ("py", "python:3.12-slim"),
        ("javascript", "node:20-slim"),
        ("js", "node:20-slim"),
        ("node", "node:20-slim"),
        ("typescript", "node:20-slim"),
        ("ts", "node:20-slim"),
        ("rust", "rust:1.75-slim"),
        ("rs", "rust:1.75-slim"),
        ("go", "golang:1.21-alpine"),
        ("golang", "golang:1.21-alpine"),
        ("java", "eclipse-temurin:21-jdk"),
        ("c", "gcc:13"),
        ("cpp", "gcc:13"),
        ("c++", "gcc:13"),
        ("ruby", "ruby:3.3-slim"),
        ("rb", "ruby:3.3-slim"),
    ];
    for (language, image) in table {
        assert_eq!(get_language_image(language).expect(language), image);
        assert_eq!(language_image(language).expect(language), image);
        assert_eq!(
            shell_ide::commands::grading::get_language_image(language).expect(language),
            image
        );
    }
}

#[test]
fn language_is_matched_without_regard_to_case() {
    assert_eq!(get_language_image("Python").expect("Python"), "python:3.12-slim");
    assert_eq!(get_language_image("RUST").expect("RUST"), "rust:1.75-slim");
    assert_eq!(get_language_image("C++").expect("C++"), "gcc:13");
    assert_eq!(
        get_run_command("JavaScript", "index.js").expect("JavaScript"),
        strings(&["node", "index.js"])
    );
    // the table itself is in lower case
    assert!(language_image("Python").is_none());
    assert!(run_command("Python", "main.py").is_none());
}

#[test]
fn unsupported_language_is_named_as_it_was_given() {
    match get_language_image("Cobol") {
        Err(ShellError::Execution(text)) => assert_eq!(text, "Unsupported language: Cobol"),
        other => panic!("wrong answer: {:?}", other),
    }
    match get_run_command("", "main") {
        Err(ShellError::Execution(text)) => assert_eq!(text, "Unsupported language: "),
        other => panic!("wrong answer: {:?}", other),
    }
    match shell_ide::commands::grading::get_language_image("brainfuck") {
        Err(ShellError::Execution(text)) => assert_eq!(text, "Unsupported language: brainfuck"),
        other => panic!("wrong answer: {:?}", other),
    }
}

#[test]
fn every_language_has_its_command() {
    assert_eq!(get_run_command("python", "main.py").unwrap(), strings(&["python", "main.py"]));
    assert_eq!(get_run_command("py", "a.py").unwrap(), strings(&["python", "a.py"]));
    assert_eq!(get_run_command("node", "a.js").unwrap(), strings(&["node", "a.js"]));
    assert_eq!(get_run_command("js", "a.js").unwrap(), strings(&["node", "a.js"]));
    assert_eq!(get_run_command("typescript", "a.ts").unwrap(), strings(&["npx", "tsx", "a.ts"]));
    assert_eq!(get_run_command("ts", "a.ts").unwrap(), strings(&["npx", "tsx", "a.ts"]));
    assert_eq!(get_run_command("rust", "ignored").unwrap(), strings(&["cargo", "run"]));
    assert_eq!(get_run_command("rs", "ignored").unwrap(), strings(&["cargo", "run"]));
    assert_eq!(get_run_command("go", "main.go").unwrap(), strings(&["go", "run", "main.go"]));
    assert_eq!(get_run_command("golang", "m.go").unwrap(), strings(&["go", "run", "m.go"]));
    assert_eq!(get_run_command("java", "Main").unwrap(), strings(&["java", "Main"]));
    assert_eq!(
        get_run_command("c", "main.c").unwrap(),
        strings(&["sh", "-c", "gcc main.c -o /tmp/a.out && /tmp/a.out"])
    );
    assert_eq!(
        get_run_command("cpp", "main.cpp").unwrap(),
        strings(&["sh", "-c", "g++ main.cpp -o /tmp/a.out && /tmp/a.out"])
    );
    assert_eq!(
        get_run_command("c++", "main.cc").unwrap(),
        strings(&["sh", "-c", "g++ main.cc -o /tmp/a.out && /tmp/a.out"])
    );
    assert_eq!(get_run_command("ruby", "a.rb").unwrap(), strings(&["ruby", "a.rb"]));
    assert_eq!(get_run_command("rb", "a.rb").unwrap(), strings(&["ruby", "a.rb"]));
}

#[test]
fn run_request_becomes_an_execution_request() {
    let request = run_code(run_request("Python"), true).expect("a request");
    assert_eq!(request.id.len(), 36);
    assert!(request.id.is_ascii());
    assert!(request.id.is_char_boundary(8));
    assert_eq!(request.image, "python:3.12-slim");
    assert_eq!(request.command, strings(&["python", "main"]));
    assert_eq!(request.working_dir, "/workspace");
    assert_eq!(request.source_path, "/home/alice/project");
    assert!(request.env.is_empty());
    assert_eq!(request.memory_limit, None);
    assert_eq!(request.cpu_quota, None);
    assert_eq!(request.timeout, None);
    assert!(!request.step_mode);
    assert!(request.trace_io);
}

#[test]
fn run_request_carries_its_choices_over() {
    let mut asked = run_request("c");
    asked.entry_point = Some("prog.c".to_string());
    asked.env = Some(vec![("K".to_string(), "v".to_string())]);
    asked.step_mode = Some(true);
    asked.trace_io = Some(false);
    asked.timeout = Some(7);
    asked.stdin = Some("input".to_string());
    let request = execution_request(asked, true, "fixed-id-0001".to_string()).expect("a request");
    assert_eq!(request.id, "fixed-id-0001");
    assert_eq!(request.image, "gcc:13");
    assert_eq!(
        request.command,
        strings(&["sh", "-c", "gcc prog.c -o /tmp/a.out && /tmp/a.out"])
    );
    assert_eq!(request.env, vec![("K".to_string(), "v".to_string())]);
    assert!(request.step_mode);
    assert!(!request.trace_io);
    assert_eq!(request.timeout, Some(7));
}

#[test]
fn fresh_identifiers_differ() {
    let first = run_code(run_request("go"), true).expect("a request");
    let second = run_code(run_request("go"), true).expect("a request");
    assert_ne!(first.id, second.id);
    assert_eq!(first.id.as_bytes()[8], b'-');
    assert_eq!(first.id.as_bytes()[14], b'4');
}

#[test]
fn run_is_refused_without_the_engine_or_the_language() {
    match run_code(run_request("python"), false) {
        Err(ShellError::Docker(text)) => assert_eq!(
            text,
            "Docker is not available. Please install and start Docker."
        ),
        other => panic!("wrong answer: {:?}", other),
    }
    match run_code(run_request("fortran"), false) {
        Err(ShellError::Docker(_)) => {}
        other => panic!("wrong answer: {:?}", other),
    }
    match run_code(run_request("fortran"), true) {
        Err(ShellError::Execution(text)) => assert_eq!(text, "Unsupported language: fortran"),
        other => panic!("wrong answer: {:?}", other),
    }
}

#[test]
fn status_lists_what_is_running() {
    let mut manager = DockerManager::new();
    manager.connect(ConnectOutcome::Ready).unwrap();
    let status = get_execution_status(&manager).expect("a status");
    assert!(!status.running);
    assert!(status.containers.is_empty());
    let request = run_code(run_request("python"), true).unwrap();
    let id = request.id.clone();
    let mut execution = manager.run(request);
    manager.advance(&mut execution, EngineEvent::Created { container_id: "c-1".to_string() });
    let status = get_execution_status(&manager).expect("a status");
    assert!(status.running);
    assert_eq!(status.containers.len(), 1);
    assert_eq!(status.containers[0].execution_id, id);
    match stop_execution(&id, &manager) {
        Ok(Some(EngineAction::Kill { container_id })) => assert_eq!(container_id, "c-1"),
        other => panic!("no kill: {:?}", other),
    }
    assert!(matches!(stop_execution("unknown", &manager), Ok(None)));
}

#[test]
fn fresh_settings() {
    let settings = Settings::default();
    assert_eq!(settings.theme, "shell-dark");
    assert_eq!(settings.font_size, 14);
    assert_eq!(settings.font_family, "JetBrains Mono, Consolas, monospace");
    assert_eq!(settings.tab_size, 4);
    assert!(settings.auto_save);
    assert_eq!(settings.auto_save_delay_ms, 1000);
    assert!(settings.show_minimap);
    assert!(!settings.word_wrap);
    assert!(settings.line_numbers);
    assert!(settings.bracket_matching);
    assert!(settings.auto_indent);
    assert!(!settings.format_on_save);
    assert_eq!(settings.default_language, None);
    assert!(settings.docker_enabled);
    assert_eq!(settings.execution_timeout, 30);
}

#[test]
fn stored_settings_go_before_the_defaults() {
    let mut stored = Settings::default();
    stored.theme = "light".to_string();
    stored.tab_size = 2;
    let settings = get_settings(Some(stored));
    assert_eq!(settings.theme, "light");
    assert_eq!(settings.tab_size, 2);
    assert_eq!(get_settings(None).theme, "shell-dark");
}

#[test]
fn cloud_grading_is_always_refused() {
    let request = CloudGradingRequest {
        lesson_id: "l1".to_string(),
        code: "x".to_string(),
        language: "python".to_string(),
        project_files: vec![ProjectFile { path: "a.py".to_string(), content: "x".to_string() }],
    };
    let mut flags = FeatureFlags::default();
    match submit_for_grading(&request, &flags) {
        ShellError::CloudRequired(text) => assert_eq!(
            text,
            "Cloud grading requires a teacher license. Your code was tested locally only."
        ),
        other => panic!("wrong answer: {:?}", other),
    }
    flags.cloud_grading = true;
    match submit_for_grading(&request, &flags) {
        ShellError::CloudRequired(text) => assert_eq!(
            text,
            "Cloud grading service not yet implemented. Local testing is available."
        ),
        other => panic!("wrong answer: {:?}", other),
    }
    assert_ne!(GradingSource::Local, GradingSource::Cloud);
}

#[test]
fn only_visible_tests_are_run_locally() {
    assert_eq!(
        local_tests_to_run(Some(vec![false, true, false, false, true])).expect("tests"),
        vec![0, 2, 3]
    );
    assert_eq!(local_tests_to_run(Some(vec![false])).expect("tests"), vec![0]);
    match local_tests_to_run(None) {
        Err(ShellError::Lesson(text)) => assert_eq!(text, "Lesson has no grading configuration"),
        other => panic!("wrong answer: {:?}", other),
    }
    match local_tests_to_run(Some(Vec::new())) {
        Err(ShellError::Lesson(text)) => assert_eq!(text, "No local tests available"),
        other => panic!("wrong answer: {:?}", other),
    }
    match local_tests_to_run(Some(vec![true, true])) {
        Err(ShellError::Lesson(text)) => assert_eq!(text, "No local tests available"),
        other => panic!("wrong answer: {:?}", other),
    }
}

#[test]
fn thirteen_servers_are_known() {
    let servers = get_known_servers();
    assert_eq!(servers.len(), 13);
    let languages: Vec<&str> = servers.iter().map(|s| s.language.as_str()).collect();
    assert_eq!(
        languages,
        vec![
            "python", "python", "javascript", "typescript", "rust", "go", "java", "c", "cpp",
            "ruby", "html", "css", "json"
        ]
    );
    assert!(servers.iter().all(|s| !s.installed));
    assert!(servers.iter().all(|s| s.installation_instructions.is_some()));
    assert_eq!(servers[0].name, "Pylsp");
    assert_eq!(servers[0].command, "pylsp");
    assert!(servers[0].args.is_empty());
    assert_eq!(
        servers[0].installation_instructions.as_deref(),
        Some("pip install python-lsp-server")
    );
    assert_eq!(servers[1].name, "Pyright");
    assert_eq!(servers[1].command, "pyright-langserver");
    assert_eq!(servers[1].args, strings(&["--stdio"]));
    assert_eq!(servers[4].command, "rust-analyzer");
    assert_eq!(servers[6].name, "Eclipse JDT LS");
    assert_eq!(servers[9].args, strings(&["stdio"]));
    assert_eq!(servers[12].command, "vscode-json-language-server");
    assert_eq!(
        servers[12].installation_instructions.as_deref(),
        Some("npm install -g vscode-langservers-extracted")
    );
}

#[test]
fn servers_are_marked_by_what_was_found() {
    let mut found = vec![false; 13];
    found[1] = true;
    found[12] = true;
    let servers = get_available_servers(&found);
    assert_eq!(servers.len(), 13);
    for (i, server) in servers.iter().enumerate() {
        assert_eq!(server.installed, i == 1 || i == 12);
    }
    assert_eq!(servers[1].name, "Pyright");
    assert_eq!(servers[1].args, strings(&["--stdio"]));
    // answers that are missing count as not installed
    let servers = get_available_servers(&vec![true]);
    assert!(servers[0].installed);
    assert!(servers[1..].iter().all(|s| !s.installed));
}

#[test]
fn installed_server_goes_before_the_first_known_one() {
    let mut found = vec![false; 13];
    found[1] = true;
    let servers = get_available_servers(&found);
    let service = known_service("python", "/home/alice/p", &servers).expect("a service");
    assert_eq!(service.id, "lsp-python");
    assert_eq!(service.command, "pyright-langserver");
    assert_eq!(service.args, strings(&["--stdio"]));
    assert_eq!(service.working_dir.as_deref(), Some("/home/alice/p"));
    assert!(service.env.is_empty());
    match service.service_type {
        ServiceType::Lsp(language) => assert_eq!(language, "python"),
        other => panic!("wrong type: {:?}", other),
    }
}

#[test]
fn server_that_is_not_installed_comes_with_instructions() {
    let servers = get_available_servers(&vec![false; 13]);
    match start_language_server("python", "/p", None, &servers) {
        Err(ShellError::Service(text)) => assert_eq!(
            text,
            "LSP server 'Pylsp' not installed. pip install python-lsp-server"
        ),
        other => panic!("wrong answer: {:?}", other),
    }
    let bare = vec![LspServerInfo {
        language: "zig".to_string(),
        name: "zls".to_string(),
        command: "zls".to_string(),
        args: Vec::new(),
        installed: false,
        installation_instructions: None,
    }];
    match known_service("zig", "/p", &bare) {
        Err(ShellError::Service(text)) => assert_eq!(
            text,
            "LSP server 'zls' not installed. Please install it manually."
        ),
        other => panic!("wrong answer: {:?}", other),
    }
}

#[test]
fn language_without_a_server() {
    let servers = get_available_servers(&vec![true; 13]);
    match start_language_server("cobol", "/p", None, &servers) {
        Err(ShellError::Service(text)) => assert_eq!(text, "No LSP server found for: cobol"),
        other => panic!("wrong answer: {:?}", other),
    }
    // languages are matched exactly
    match start_language_server("Python", "/p", None, &servers) {
        Err(ShellError::Service(text)) => assert_eq!(text, "No LSP server found for: Python"),
        other => panic!("wrong answer: {:?}", other),
    }
}

#[test]
fn configured_server_goes_before_the_known_ones() {
    let servers = get_available_servers(&vec![true; 13]);
    let config = LspConfig {
        language: "python".to_string(),
        server_path: "/opt/mylsp".to_string(),
        args: Some("[\"--stdio\", \"-v\"]".to_string()),
        settings: None,
    };
    let service =
        start_language_server("python", "/p", Some(config), &servers).expect("a service");
    assert_eq!(service.id, "lsp-python");
    assert_eq!(service.command, "/opt/mylsp");
    assert_eq!(service.args, strings(&["--stdio", "-v"]));
    assert_eq!(service.working_dir.as_deref(), Some("/p"));
}

#[test]
fn arguments_that_are_no_list_of_strings_count_as_none() {
    let servers: Vec<LspServerInfo> = Vec::new();
    for args in [None, Some("not json"), Some("{\"a\":1}"), Some("[1, 2]"), Some("")] {
        let config = LspConfig {
            language: "x".to_string(),
            server_path: "srv".to_string(),
            args: args.map(|a| a.to_string()),
            settings: None,
        };
        let service = start_language_server("x", "/p", Some(config), &servers).expect("a service");
        assert!(service.args.is_empty());
    }
    assert!(arguments_from(None).is_empty());
    assert_eq!(arguments_from(Some(strings(&["a"]))), strings(&["a"]));
    let config = LspConfig {
        language: "x".to_string(),
        server_path: "srv".to_string(),
        args: None,
        settings: None,
    };
    let service = custom_service("x", "/p", config, Some(strings(&["-q"])));
    assert_eq!(service.args, strings(&["-q"]));
}

#[test]
fn service_of_a_language_server_is_named_after_the_language() {
    assert_eq!(service_id("rust"), "lsp-rust");
    assert_eq!(service_id(""), "lsp-");
    assert_eq!(stop_language_server("go"), "lsp-go");
}

#[test]
fn lesson_files_are_told_by_their_names() {
    assert!(is_lesson_file("lesson.yaml"));
    assert!(is_lesson_file("lesson.yml"));
    assert!(is_lesson_file("lesson.json"));
    assert!(is_lesson_file("lesson.intro.yaml"));
    assert!(!is_lesson_file("lesson.toml"));
    assert!(!is_lesson_file("lesson"));
    assert!(!is_lesson_file("Lesson.yaml"));
    assert!(!is_lesson_file("my-lesson.yaml"));
    assert!(!is_lesson_file(""));
    // prefix and suffix may overlap: the name need only begin and end right
    assert!(is_lesson_file("lesson.yml"));
    assert!(!is_lesson_file("lesson.y"));
}

#[test]
fn lesson_format_goes_by_the_extension() {
    assert_eq!(lesson_format("/l/lesson.yaml"), LessonFormat::Yaml);
    assert_eq!(lesson_format("/l/lesson.yml"), LessonFormat::Yaml);
    assert_eq!(lesson_format("/l/lesson.json"), LessonFormat::Json);
    assert_eq!(lesson_format("/l/lesson"), LessonFormat::Json);
    assert_eq!(lesson_format("/l/lesson.YAML"), LessonFormat::Json);
    assert_eq!(lesson_format("/l.yaml/lesson"), LessonFormat::Json);
}

#[test]
fn load_failures_are_reported() {
    match load_lesson("/l/lesson.yaml", LoadFailure::Missing) {
        ShellError::Lesson(text) => assert_eq!(text, "Lesson file not found"),
        other => panic!("wrong error: {:?}", other),
    }
    match load_lesson("/l/lesson.yaml", LoadFailure::Unreadable("denied".to_string())) {
        ShellError::Filesystem(text) => assert_eq!(text, "denied"),
        other => panic!("wrong error: {:?}", other),
    }
    match load_lesson("/l/lesson.yaml", LoadFailure::Invalid("line 3".to_string())) {
        ShellError::Lesson(text) => assert_eq!(text, "Invalid YAML: line 3"),
        other => panic!("wrong error: {:?}", other),
    }
    match load_lesson("/l/lesson.json", LoadFailure::Invalid("EOF".to_string())) {
        ShellError::Lesson(text) => assert_eq!(text, "Invalid JSON: EOF"),
        other => panic!("wrong error: {:?}", other),
    }
    match save_lesson("/l/lesson.yml", "bad".to_string()) {
        ShellError::Lesson(text) => assert_eq!(text, "Failed to serialize: bad"),
        other => panic!("wrong error: {:?}", other),
    }
    match save_lesson("/l/lesson.json", "bad".to_string()) {
        ShellError::Serialization(text) => assert_eq!(text, "bad"),
        other => panic!("wrong error: {:?}", other),
    }
}

#[test]
fn lessons_earn_warnings() {
    let check = |explanation: &str, local_tests: Option<usize>| {
        validate_lesson(Ok(LessonOutline { explanation: explanation.to_string(), local_tests }))
            .expect("a result")
    };
    let good = check("Read this.", Some(3));
    assert!(good.valid);
    assert!(good.errors.is_empty());
    assert!(good.warnings.is_empty());
    assert_eq!(check("", Some(1)).warnings, strings(&["Lesson has no explanation"]));
    assert_eq!(check("x", None).warnings, strings(&["Lesson has no grading configuration"]));
    assert_eq!(check("x", Some(0)).warnings, strings(&["Lesson has no local tests"]));
    assert_eq!(
        check("", None).warnings,
        strings(&["Lesson has no explanation", "Lesson has no grading configuration"])
    );
    assert_eq!(
        check("", Some(0)).warnings,
        strings(&["Lesson has no explanation", "Lesson has no local tests"])
    );
    assert!(check("", None).valid);
}

#[test]
fn lesson_that_does_not_load_is_invalid() {
    let found = validate_lesson(Err(ShellError::Lesson("Lesson file not found".to_string())))
        .expect("a result");
    assert!(!found.valid);
    assert_eq!(found.errors, strings(&["Lesson error: Lesson file not found"]));
    assert!(found.warnings.is_empty());
}
