use std::collections::hash_map::DefaultHasher;
use std::collections::HashMap;
use std::hash::{Hash, Hasher};
use std::time::Duration;
use webcodex_runner::jobs::{
    extract_grandchild_pid, is_validation_spawn_failure, raw_shell_job_terminal_lifecycle, sh_quote,
    GatedStructuredJob, JobUpdate, ShellCommandExecutionState,
};
use webcodex_runner::lsp::{
    generic_startup_stderr_summary, is_lsp_request_kind, plan_document, record_document,
    workspace_symbol_request_timeout, DocumentStep, LspServerKind, OpenDocumentState,
};

#[derive(Debug)]
enum LspError {
    WriterFailed(String),
    ProtocolError(String),
}

#[derive(Clone, Copy)]
struct DocumentOpen<'a> {
    uri: &'a str,
    language_id: &'a str,
    text: &'a str,
}

fn document_fingerprint(text: &str) -> u64 {
    let mut hasher = DefaultHasher::new();
    text.hash(&mut hasher);
    hasher.finish()
}

fn synchronize_document_state(
    documents: &mut HashMap<String, OpenDocumentState>,
    open: DocumentOpen<'_>,
    notify: impl FnOnce(&str, i32) -> Result<(), LspError>,
) -> Result<i32, LspError> {
    assert!(!open.language_id.is_empty());
    let fingerprint = document_fingerprint(open.text);
    let before = documents.get(open.uri).copied();
    let Some(step) = plan_document(before, fingerprint) else {
        return Err(LspError::ProtocolError("version overflow".to_string()));
    };
    let outcome = match step {
        DocumentStep::Unchanged { .. } => Ok(()),
        DocumentStep::Open => notify("textDocument/didOpen", 1),
        DocumentStep::Change { version } => notify("textDocument/didChange", version),
    };
    let after = record_document(before, fingerprint, step, outcome.is_ok());
    if let Some(state) = after {
        documents.insert(open.uri.to_string(), state);
    }
    outcome?;
    Ok(after.unwrap().version)
}

#[test]
fn failed_did_change_does_not_advance_document_state() {
    let mut documents = HashMap::new();
    let initial = DocumentOpen {
        uri: "file:///workspace/main.rs",
        language_id: "rust",
        text: "fn initial() {}\n",
    };
    synchronize_document_state(&mut documents, initial, |method, _| {
        assert_eq!(method, "textDocument/didOpen");
        Ok(())
    })
    .unwrap();

    let changed = DocumentOpen {
        text: "fn changed() {}\n",
        ..initial
    };
    let error = synchronize_document_state(&mut documents, changed, |method, _| {
        assert_eq!(method, "textDocument/didChange");
        Err(LspError::WriterFailed("injected failure".to_string()))
    })
    .unwrap_err();
    assert!(matches!(&error, LspError::WriterFailed(text) if text == "injected failure"));
    let unchanged = documents[initial.uri];
    assert_eq!(unchanged.version, 1);
    assert_eq!(
        unchanged.content_fingerprint,
        document_fingerprint(initial.text)
    );

    let version = synchronize_document_state(&mut documents, changed, |method, version| {
        assert_eq!(method, "textDocument/didChange");
        assert_eq!(version, 2);
        Ok(())
    })
    .unwrap();
    assert_eq!(version, 2);
}

#[test]
fn document_version_overflow_is_safe_and_state_is_fingerprint_only() {
    assert!(std::mem::size_of::<OpenDocumentState>() <= 40);
    let uri = "file:///workspace/main.rs";
    let initial_text = "fn initial() {}\n";
    let mut documents = HashMap::from([(
        uri.to_string(),
        OpenDocumentState {
            version: i32::MAX,
            content_fingerprint: document_fingerprint(initial_text),
        },
    )]);
    let error = synchronize_document_state(
        &mut documents,
        DocumentOpen {
            uri,
            language_id: "rust",
            text: "fn changed() {}\n",
        },
        |_, _| panic!("overflow must be rejected before notification"),
    )
    .unwrap_err();
    assert!(matches!(&error, LspError::ProtocolError(text) if !text.is_empty()));
    assert_eq!(documents[uri].version, i32::MAX);
}

#[test]
fn unchanged_document_is_not_announced_again() {
    let mut documents = HashMap::new();
    let open = DocumentOpen {
        uri: "file:///workspace/main.rs",
        language_id: "rust",
        text: "fn initial() {}\n",
    };
    assert_eq!(
        synchronize_document_state(&mut documents, open, |_, _| Ok(())).unwrap(),
        1
    );
    let version = synchronize_document_state(&mut documents, open, |_, _| {
        panic!("nothing is to be told")
    })
    .unwrap();
    assert_eq!(version, 1);
}

#[test]
fn lsp_kind_never_matches_shell() {
    assert!(is_lsp_request_kind("lsp"));
    assert!(!is_lsp_request_kind("run_shell"));
    assert!(!is_lsp_request_kind("file_read"));
}

#[test]
fn workspace_symbol_timeout_uses_operation_budget_only_for_rust() {
    let ordinary = Duration::from_secs(3);
    let operation_budget = Duration::from_secs(17);
    assert_eq!(
        workspace_symbol_request_timeout(LspServerKind::RustAnalyzer, ordinary, operation_budget),
        operation_budget
    );
    assert_eq!(
        workspace_symbol_request_timeout(LspServerKind::Gopls, ordinary, operation_budget),
        ordinary
    );
    assert_eq!(
        workspace_symbol_request_timeout(LspServerKind::Pyright, ordinary, operation_budget),
        ordinary
    );
    assert_eq!(
        workspace_symbol_request_timeout(
            LspServerKind::TypeScriptLanguageServer,
            ordinary,
            operation_budget
        ),
        ordinary
    );
    assert_eq!(
        workspace_symbol_request_timeout(
            LspServerKind::VueLanguageServer,
            ordinary,
            operation_budget
        ),
        ordinary
    );
}

#[test]
fn generic_startup_stderr_summary_compacts_bounds_or_none() {
    let summary = generic_startup_stderr_summary("  language server crashed on boot \n").unwrap();
    assert_eq!(summary, "language server crashed on boot");
    assert!(generic_startup_stderr_summary("   \n\t  ").is_none());
    let long = "x".repeat(200);
    let bounded = generic_startup_stderr_summary(&long).unwrap();
    // 160 retained characters plus the ellipsis marker.
    assert_eq!(bounded.chars().count(), 161);
    assert!(bounded.ends_with('…'));
}

#[test]
fn startup_summary_turns_control_characters_into_spaces() {
    assert_eq!(
        generic_startup_stderr_summary("a\tb\u{7f}c\n").unwrap(),
        "a b c"
    );
    assert_eq!(
        generic_startup_stderr_summary(&"y".repeat(160)).unwrap(),
        "y".repeat(160)
    );
}

#[test]
fn raw_shell_job_lifecycle_distinguishes_terminal_truth_without_error_text_matching() {
    assert_eq!(
        raw_shell_job_terminal_lifecycle("completed", Some(0)),
        ShellCommandExecutionState::Completed
    );
    assert_eq!(
        raw_shell_job_terminal_lifecycle("failed", Some(7)),
        ShellCommandExecutionState::Completed
    );
    assert_eq!(
        raw_shell_job_terminal_lifecycle("stopped", Some(-1)),
        ShellCommandExecutionState::Completed
    );
    assert_eq!(
        raw_shell_job_terminal_lifecycle("timeout", Some(-1)),
        ShellCommandExecutionState::TimedOut
    );
    assert_eq!(
        raw_shell_job_terminal_lifecycle("failed", None),
        ShellCommandExecutionState::OutcomeUnknown
    );
}

#[test]
fn paths_are_quoted_as_one_word() {
    assert_eq!(sh_quote(""), "''");
    assert_eq!(sh_quote("/tmp/a b"), "'/tmp/a b'");
    assert_eq!(sh_quote("it's"), r#"'it'"'"'s'"#);
    assert_eq!(sh_quote("''"), r#"''"'"''"'"''"#);
    for path in ["/tmp/$x \"y\"", "'", "a'b'c", "\u{e9}'"] {
        assert_eq!(sh_quote(path), format!("'{}'", path.replace('\'', "'\"'\"'")));
    }
}

#[test]
fn first_announced_process_number_is_found() {
    let output = "noise\n  GRANDCHILD_PID= 42 \r\nGRANDCHILD_PID=7\n";
    assert_eq!(extract_grandchild_pid(output), Some(42));
    assert_eq!(extract_grandchild_pid("GRANDCHILD_PID=x\nGRANDCHILD_PID=+007"), Some(7));
    assert_eq!(extract_grandchild_pid("GRANDCHILD_PID=4294967295"), Some(u32::MAX));
    for text in [
        "",
        "\n",
        "GRANDCHILD_PID=",
        "GRANDCHILD_PID=+",
        "GRANDCHILD_PID=-1",
        "GRANDCHILD_PID=4294967296",
        "GRANDCHILD_PID=99999999999999999999999",
        "x GRANDCHILD_PID=1",
        "GRANDCHILD_PID=1 2",
    ] {
        assert_eq!(extract_grandchild_pid(text), None, "{text}");
    }
}

#[test]
fn validation_spawn_failure_has_its_own_code_and_no_exit_code() {
    let update = || JobUpdate {
        finished: true,
        status: "failed".to_string(),
        exit_code: None,
        error: Some("spawn_failed".to_string()),
    };
    assert!(is_validation_spawn_failure(&update(), "spawn_failed"));
    assert!(!is_validation_spawn_failure(&update(), "other"));
    let unfinished = JobUpdate { finished: false, ..update() };
    assert!(!is_validation_spawn_failure(&unfinished, "spawn_failed"));
    let exited = JobUpdate { exit_code: Some(1), ..update() };
    assert!(!is_validation_spawn_failure(&exited, "spawn_failed"));
    assert!(!is_validation_spawn_failure(&JobUpdate { error: None, ..update() }, "spawn_failed"));
    let stopped = JobUpdate { status: "stopped".to_string(), ..update() };
    assert!(!is_validation_spawn_failure(&stopped, "spawn_failed"));
}

#[test]
fn gated_job_names_its_files_in_order() {
    let job = GatedStructuredJob {
        job_id: "j".to_string(),
        started: "/t/j.started".to_string(),
        active: "/t/j.active".to_string(),
        release: "/t/j.release".to_string(),
    };
    assert_eq!(job.args(), ["gate", "/t/j.started", "/t/j.active", "/t/j.release", "j"]);
}
