use helix_ios::grammars::{grammar_notice, static_grammar_index, static_grammar_names};
use helix_ios::launch::{
    arg_parse_failure_message, check_runtime_path, decode_args, fds_to_close, finish_create, prepare_create,
    prepare_create_with_args, startup_action, CreateError, Registration, RuntimePathRegistry, StartupAction,
    HELIX_ERROR_ARG_PARSE_FAILED, HELIX_ERROR_INVALID_ARG_UTF8, HELIX_ERROR_INVALID_FILE_PATH_UTF8,
    HELIX_ERROR_INVALID_RUNTIME_PATH_UTF8, HELIX_ERROR_NONE, HELIX_ERROR_NULL_RUNTIME_PATH,
    HELIX_ERROR_RUNTIME_PATH_MISMATCH, HELIX_ERROR_THREAD_SPAWN_FAILED,
};

#[test]
fn error_codes() {
    assert_eq!(HELIX_ERROR_NONE, 0);
    assert_eq!(CreateError::NullRuntimePath.code(), 1);
    assert_eq!(CreateError::InvalidRuntimePathUtf8.code(), 2);
    assert_eq!(CreateError::RuntimePathMismatch.code(), 3);
    assert_eq!(CreateError::InvalidFilePathUtf8.code(), 4);
    assert_eq!(CreateError::ThreadSpawnFailed.code(), 5);
    assert_eq!(CreateError::InvalidArgUtf8.code(), 6);
    assert_eq!(CreateError::ArgParseFailed.code(), 7);
    assert_eq!(
        [
            HELIX_ERROR_NULL_RUNTIME_PATH,
            HELIX_ERROR_INVALID_RUNTIME_PATH_UTF8,
            HELIX_ERROR_RUNTIME_PATH_MISMATCH,
            HELIX_ERROR_INVALID_FILE_PATH_UTF8,
            HELIX_ERROR_THREAD_SPAWN_FAILED,
            HELIX_ERROR_INVALID_ARG_UTF8,
            HELIX_ERROR_ARG_PARSE_FAILED,
        ],
        [1, 2, 3, 4, 5, 6, 7]
    );
}

#[test]
fn first_runtime_path_wins() {
    let mut registry = RuntimePathRegistry::new();
    assert!(registry.configured().is_none());
    assert_eq!(registry.register("/a"), Registration::Installed);
    assert_eq!(registry.register("/a"), Registration::Matched);
    assert_eq!(registry.register("/b"), Registration::Mismatched);
    assert_eq!(registry.configured().map(|s| s.as_str()), Some("/a"));
}

#[test]
fn create_builds_the_command_line() {
    let registry = RuntimePathRegistry::new();
    assert_eq!(
        prepare_create(Some(b"/rt"), None, &registry),
        Ok(("/rt".to_string(), vec!["hx".to_string()]))
    );
    assert_eq!(
        prepare_create(Some(b"/rt"), Some("notes é.md".as_bytes()), &registry),
        Ok(("/rt".to_string(), vec!["hx".to_string(), "notes é.md".to_string()]))
    );
    assert!(registry.configured().is_none());
}

#[test]
fn create_refusals() {
    let mut registry = RuntimePathRegistry::new();
    assert_eq!(prepare_create(None, None, &registry), Err(CreateError::NullRuntimePath));
    assert_eq!(
        prepare_create(Some(&[0xff, 0xfe]), None, &registry),
        Err(CreateError::InvalidRuntimePathUtf8)
    );
    assert_eq!(
        prepare_create(Some(b"/rt"), Some(&[0xc3]), &registry),
        Err(CreateError::InvalidFilePathUtf8)
    );
    assert!(registry.configured().is_none());
    assert_eq!(finish_create(&mut registry, "/rt", true), None);
    assert_eq!(registry.configured().map(|s| s.as_str()), Some("/rt"));
    assert_eq!(
        prepare_create(Some(b"/other"), None, &registry),
        Err(CreateError::RuntimePathMismatch)
    );
}

#[test]
fn failed_create_does_not_pin_the_runtime_path() {
    let mut registry = RuntimePathRegistry::new();
    // Refused for its file path: nothing is recorded.
    assert_eq!(
        prepare_create(Some(b"/p"), Some(&[0xc3]), &registry),
        Err(CreateError::InvalidFilePathUtf8)
    );
    // Refused for an argument: nothing is recorded.
    assert_eq!(
        prepare_create_with_args(Some(b"/p"), &[vec![0x80]], &registry),
        Err(CreateError::InvalidArgUtf8)
    );
    // Accepted, but the editor thread did not start.
    let (path, _) = prepare_create(Some(b"/p"), None, &registry).unwrap();
    assert_eq!(finish_create(&mut registry, &path, false), Some(CreateError::ThreadSpawnFailed));
    assert_eq!(CreateError::ThreadSpawnFailed.code(), 5);
    assert!(registry.configured().is_none());
    // Another path is still accepted, and the first success pins it.
    let (path, args) = prepare_create(Some(b"/q"), None, &registry).unwrap();
    assert_eq!(args, vec!["hx".to_string()]);
    assert_eq!(finish_create(&mut registry, &path, true), None);
    assert_eq!(registry.configured().map(|s| s.as_str()), Some("/q"));
    assert_eq!(prepare_create(Some(b"/p"), None, &registry), Err(CreateError::RuntimePathMismatch));
    assert_eq!(
        prepare_create(Some(b"/q"), None, &registry),
        Ok(("/q".to_string(), vec!["hx".to_string()]))
    );
}

#[test]
fn create_with_args() {
    let mut registry = RuntimePathRegistry::new();
    let args = vec![b"hx".to_vec(), b"-c".to_vec(), b"cfg.toml".to_vec()];
    assert_eq!(
        prepare_create_with_args(Some(b"/rt"), &args, &registry),
        Ok(("/rt".to_string(), vec!["hx".to_string(), "-c".to_string(), "cfg.toml".to_string()]))
    );
    assert_eq!(prepare_create_with_args(Some(b"/rt"), &[], &registry), Ok(("/rt".to_string(), vec![])));
    let bad = vec![b"hx".to_vec(), vec![0x80]];
    assert_eq!(
        prepare_create_with_args(Some(b"/rt"), &bad, &registry),
        Err(CreateError::InvalidArgUtf8)
    );
    assert_eq!(
        prepare_create_with_args(None, &args, &registry),
        Err(CreateError::NullRuntimePath)
    );
    assert_eq!(finish_create(&mut registry, "/rt", true), None);
    assert_eq!(
        prepare_create_with_args(Some(b"/else"), &args, &registry),
        Err(CreateError::RuntimePathMismatch)
    );
}

#[test]
fn descriptors_closed_on_refusal() {
    assert_eq!(fds_to_close(3, 4), vec![3, 4]);
    assert_eq!(fds_to_close(5, 5), vec![5]);
}

#[test]
fn startup_actions() {
    assert_eq!(startup_action(true, true, false), StartupAction::PrintHealth);
    assert_eq!(startup_action(false, true, false), StartupAction::PrintGrammarNotice);
    assert_eq!(startup_action(false, false, true), StartupAction::PrintGrammarNotice);
    assert_eq!(startup_action(false, false, false), StartupAction::RunEditor);
}

#[test]
fn arg_parse_failure_text() {
    assert_eq!(arg_parse_failure_message("bad flag"), b"hx: bad flag\r\n".to_vec());
}

#[test]
fn grammar_names_are_alphabetical() {
    let names = static_grammar_names();
    assert_eq!(names.len(), 29);
    for pair in names.windows(2) {
        assert!(pair[0] < pair[1], "{:?}", pair);
    }
}

#[test]
fn grammar_lookup() {
    assert_eq!(static_grammar_index("bash"), Some(0));
    assert_eq!(static_grammar_index("git-rebase"), Some(7));
    assert_eq!(static_grammar_index("zig"), Some(28));
    assert_eq!(static_grammar_index("cobol"), None);
    assert_eq!(static_grammar_index(""), None);
}

#[test]
fn grammar_notice_text() {
    let mut expected = String::from(
        "Tree-sitter grammars are statically compiled on iOS.\nThe fetch and build commands are not needed.\n\nAvailable grammars (29):\n",
    );
    for name in static_grammar_names() {
        expected.push_str(&format!("  {name}\n"));
    }
    assert_eq!(String::from_utf8(grammar_notice()).unwrap(), expected);
    assert!(expected.ends_with("  yaml\n  zig\n"));
}

#[test]
fn runtime_path_check_alone() {
    let mut registry = RuntimePathRegistry::new();
    assert_eq!(check_runtime_path(Some(b"/x"), &registry), Ok("/x".to_string()));
    assert_eq!(check_runtime_path(Some(b"/y"), &registry), Ok("/y".to_string()));
    assert!(registry.accepts("/x"));
    assert_eq!(registry.register("/x"), Registration::Installed);
    assert!(registry.accepts("/x"));
    assert!(!registry.accepts("/y"));
    assert_eq!(check_runtime_path(Some(b"/x"), &registry), Ok("/x".to_string()));
    assert_eq!(check_runtime_path(Some(b"/y"), &registry), Err(CreateError::RuntimePathMismatch));
    assert_eq!(check_runtime_path(None, &registry), Err(CreateError::NullRuntimePath));
    assert_eq!(check_runtime_path(Some(&[0xc0, 0x80]), &registry), Err(CreateError::InvalidRuntimePathUtf8));
    assert_eq!(decode_args(&[b"a".to_vec(), "ü".as_bytes().to_vec()]), Ok(vec!["a".to_string(), "ü".to_string()]));
    assert_eq!(decode_args(&[vec![0xed, 0xa0, 0x80]]), Err(CreateError::InvalidArgUtf8));
}
