use smarthome_cli::errors::{Error, RemoteFailure};
use smarthome_cli::script::{ExecutionResult, HomescriptData, ScriptKind};
use smarthome_cli::sync::{
    classify_create_failure, classify_delete_failure, clone_outcomes, delete_step, find_script,
    plan_create, plan_push, pull_decision, read_manifest, require_code_file, resolve_lint_gate,
    resolve_script, splice_code, workspace_files, CloneItem, PullOutcome, PushPlan,
};

fn record(id: &str, code: &str) -> HomescriptData {
    HomescriptData {
        id: id.to_string(),
        name: format!("name of {id}"),
        description: "a script".to_string(),
        quick_actions_enabled: true,
        scheduler_enabled: false,
        is_widget: false,
        code: code.to_string(),
        md_icon: "code".to_string(),
        kind: ScriptKind::Normal,
        workspace: "default".to_string(),
    }
}

fn lint_result(success: bool) -> ExecutionResult {
    ExecutionResult {
        success,
        exit_code: if success { 0 } else { 1 },
        output: String::new(),
        diagnostics: Vec::new(),
        file_contents: Vec::new(),
    }
}

#[test]
fn clone_then_pull_is_up_to_date() {
    let remote = record("lights", "on('lamp')\n");
    let files = clone_outcomes(&Vec::new(), true, &vec![remote.clone()])
        .into_iter()
        .map(|item| match item {
            CloneItem::Found { record } => workspace_files(&record),
            CloneItem::Missing { id } => panic!("{id} unexpectedly missing"),
        })
        .next()
        .expect("one clone outcome");
    assert_eq!(files.directory, "lights");
    assert_eq!(files.code_file, "lights.hms");
    assert_eq!(files.manifest_file, ".hms.toml");
    assert_eq!(files.manifest, "id = \"lights\"\n");
    assert!(matches!(pull_decision(&files.code, &remote), PullOutcome::UpToDate));
}

#[test]
fn pull_overwrites_on_drift() {
    let remote = record("lights", "remote code");
    match pull_decision(&"local code".to_string(), &remote) {
        PullOutcome::Overwrite { code } => assert_eq!(code, "remote code"),
        PullOutcome::UpToDate => panic!("drift must overwrite"),
    }
}

#[test]
fn push_twice_is_idempotent() {
    let local = "new code".to_string();
    let remote = record("lights", "old code");
    let submitted = match plan_push(&local, &remote, false) {
        PushPlan::Submit { record } => record,
        _ => panic!("differing code without lint hook must submit"),
    };
    assert!(matches!(plan_push(&local, &submitted, false), PushPlan::UpToDate));
    assert!(matches!(plan_push(&local, &submitted, true), PushPlan::UpToDate));
}

#[test]
fn push_splice_preserves_every_other_field() {
    let remote = record("lights", "old code");
    let local = "new code".to_string();
    let spliced = splice_code(&remote, &local);
    assert_eq!(spliced.code, "new code");
    assert_eq!(spliced.id, remote.id);
    assert_eq!(spliced.name, remote.name);
    assert_eq!(spliced.description, remote.description);
    assert_eq!(spliced.quick_actions_enabled, remote.quick_actions_enabled);
    assert_eq!(spliced.scheduler_enabled, remote.scheduler_enabled);
    assert_eq!(spliced.is_widget, remote.is_widget);
    assert_eq!(spliced.md_icon, remote.md_icon);
    assert_eq!(spliced.kind, remote.kind);
    assert_eq!(spliced.workspace, remote.workspace);
}

#[test]
fn push_with_equal_code_is_a_no_op() {
    let remote = record("lights", "same");
    assert!(matches!(plan_push(&"same".to_string(), &remote, true), PushPlan::UpToDate));
}

#[test]
fn push_with_lint_hook_lints_first() {
    let remote = record("lights", "old");
    assert!(matches!(plan_push(&"new".to_string(), &remote, true), PushPlan::LintFirst));
}

#[test]
fn lint_gate_blocks_without_force() {
    let remote = record("lights", "old");
    let local = "new".to_string();
    match resolve_lint_gate(&remote, &local, lint_result(false), false) {
        Err(Error::LintErrors { code, .. }) => assert_eq!(code, "new"),
        other => panic!("lint findings without force must fail, got {other:?}"),
    }
}

#[test]
fn lint_gate_downgrades_with_force() {
    let remote = record("lights", "old");
    let local = "new".to_string();
    let (submission, warned) =
        resolve_lint_gate(&remote, &local, lint_result(false), true).expect("force must proceed");
    assert!(warned);
    assert_eq!(submission.code, "new");
    assert_eq!(submission.name, remote.name);
}

#[test]
fn clean_lint_proceeds_without_warning() {
    let remote = record("lights", "old");
    let local = "new".to_string();
    let (submission, warned) =
        resolve_lint_gate(&remote, &local, lint_result(true), false).expect("clean lint proceeds");
    assert!(!warned);
    assert_eq!(submission.code, "new");
}

#[test]
fn create_rejects_bad_id_before_any_remote_call() {
    match plan_create("bad id".to_string(), None, None, false) {
        Err(Error::InvalidInput { message }) => {
            assert_eq!(message, "id must not contain whitespace and shall not exceed 30 characters")
        },
        other => panic!("an id with a space must be invalid, got {other:?}"),
    }
    match plan_create("x".repeat(31), None, None, false) {
        Err(Error::InvalidInput { .. }) => {},
        other => panic!("an overlong id must be invalid, got {other:?}"),
    }
}

#[test]
fn create_rejects_long_name_and_workspace() {
    match plan_create("ok".to_string(), Some("n".repeat(31)), None, false) {
        Err(Error::InvalidInput { message }) => {
            assert_eq!(message, "name must not exceed 30 characters")
        },
        other => panic!("an overlong name must be invalid, got {other:?}"),
    }
    match plan_create("ok".to_string(), None, Some("w".repeat(51)), false) {
        Err(Error::InvalidInput { message }) => {
            assert_eq!(message, "workspace must not exceed 50 characters")
        },
        other => panic!("an overlong workspace must be invalid, got {other:?}"),
    }
}

#[test]
fn create_rejects_an_existing_directory() {
    match plan_create("taken".to_string(), None, None, true) {
        Err(Error::WorkspaceAlreadyExists { id }) => assert_eq!(id, "taken"),
        other => panic!("an existing directory must be rejected, got {other:?}"),
    }
}

#[test]
fn create_builds_the_default_record() {
    let record = plan_create("fresh".to_string(), None, None, false).expect("valid input");
    assert_eq!(record.id, "fresh");
    assert_eq!(record.name, "fresh");
    assert_eq!(record.workspace, "default");
    assert_eq!(record.code, "");
    assert_eq!(record.description, "");
    assert_eq!(record.md_icon, "code");
    assert_eq!(record.kind, ScriptKind::Normal);
    assert!(!record.quick_actions_enabled);
    assert!(!record.scheduler_enabled);
    assert!(!record.is_widget);

    let named = plan_create("fresh".to_string(), Some("Fresh".to_string()), Some("ws".to_string()), false)
        .expect("valid input");
    assert_eq!(named.name, "Fresh");
    assert_eq!(named.workspace, "ws");
}

#[test]
fn create_conflict_maps_to_script_already_exists() {
    let id = "fresh".to_string();
    match classify_create_failure(&id, RemoteFailure::Status { code: 422 }) {
        Error::ScriptAlreadyExists { id } => assert_eq!(id, "fresh"),
        other => panic!("a remote conflict must map to ScriptAlreadyExists, got {other:?}"),
    }
    assert!(matches!(
        classify_create_failure(&id, RemoteFailure::Status { code: 403 }),
        Error::PermissionDenied
    ));
}

#[test]
fn delete_with_dependents_is_blocked_and_local_files_stay() {
    let id = "pinned".to_string();
    match delete_step(&id, Some(RemoteFailure::Status { code: 409 })) {
        Err(Error::HasDependentAutomations { id }) => assert_eq!(id, "pinned"),
        other => panic!("dependents must block deletion, got {other:?}"),
    }
    match delete_step(&id, Some(RemoteFailure::Status { code: 422 })) {
        Err(Error::ScriptDoesNotExist { id }) => assert_eq!(id, "pinned"),
        other => panic!("an unknown id must be reported, got {other:?}"),
    }
    match delete_step(&id, None) {
        Ok(directory) => assert_eq!(directory, "pinned"),
        other => panic!("a remote success must allow local removal, got {other:?}"),
    }
    assert!(matches!(
        classify_delete_failure(&id, RemoteFailure::Status { code: 503 }),
        Error::ServerUnavailable
    ));
}

#[test]
fn partial_batch_clone_fails_only_the_missing_id() {
    let fetched = vec![record("a", "code a"), record("b", "code b")];
    let requested = vec!["a".to_string(), "missing".to_string(), "b".to_string()];
    let outcomes = clone_outcomes(&requested, false, &fetched);
    assert_eq!(outcomes.len(), 3);
    match &outcomes[0] {
        CloneItem::Found { record } => assert_eq!(record.code, "code a"),
        other => panic!("`a` exists, got {other:?}"),
    }
    match &outcomes[1] {
        CloneItem::Missing { id } => assert_eq!(id, "missing"),
        other => panic!("`missing` is absent, got {other:?}"),
    }
    match &outcomes[2] {
        CloneItem::Found { record } => assert_eq!(record.code, "code b"),
        other => panic!("`b` exists, got {other:?}"),
    }
}

#[test]
fn clone_all_clones_every_fetched_script() {
    let fetched = vec![record("a", "code a"), record("b", "code b")];
    let outcomes = clone_outcomes(&vec!["a".to_string()], true, &fetched);
    assert_eq!(outcomes.len(), 2);
    assert!(outcomes.iter().all(|o| matches!(o, CloneItem::Found { .. })));
}

#[test]
fn missing_files_mean_no_workspace() {
    assert!(matches!(read_manifest(None), Err(Error::NotAWorkspace)));
    assert!(matches!(require_code_file(None), Err(Error::NotAWorkspace)));
    assert_eq!(require_code_file(Some("code".to_string())).unwrap(), "code");
}

#[test]
fn unparsable_manifest_is_corrupt_not_missing() {
    let meta = read_manifest(Some(&"id = \"here\"\n".to_string())).expect("well-formed");
    assert_eq!(meta.id, "here");
    assert!(matches!(
        read_manifest(Some(&"garbage".to_string())),
        Err(Error::CorruptManifest)
    ));
}

#[test]
fn vanished_scripts_are_reported() {
    let scripts = vec![record("a", ""), record("b", "")];
    assert_eq!(find_script(&scripts, &"b".to_string()), Some(1));
    assert_eq!(find_script(&scripts, &"zz".to_string()), None);
    let found = resolve_script(&scripts, &"a".to_string()).expect("`a` is listed");
    assert_eq!(found.id, "a");
    match resolve_script(&scripts, &"gone".to_string()) {
        Err(Error::ScriptNoLongerAccessible { id }) => assert_eq!(id, "gone"),
        other => panic!("an unlisted id is no longer accessible, got {other:?}"),
    }
}

#[test]
fn error_messages_name_the_subject() {
    let e = Error::ScriptDoesNotExist { id: "x".to_string() };
    assert_eq!(e.message(), "Script `x` does not exist or is inaccessible");
    assert_eq!(
        Error::NotAWorkspace.message(),
        "Not a valid Homescript directory: (missing files?)"
    );
    assert_eq!(
        Error::Unknown { message: "boom".to_string() }.message(),
        "Smarthome Error: boom"
    );
}

#[test]
fn create_accepts_inputs_exactly_at_the_limits() {
    let record = plan_create(
        "x".repeat(30),
        Some("n".repeat(30)),
        Some("w".repeat(50)),
        false,
    )
    .expect("thirty and fifty characters are still valid");
    assert_eq!(record.id.len(), 30);
    assert_eq!(record.name.len(), 30);
    assert_eq!(record.workspace.len(), 50);
}

#[test]
fn cloning_nothing_does_nothing() {
    assert!(clone_outcomes(&Vec::new(), false, &Vec::new()).is_empty());
    assert!(clone_outcomes(&Vec::new(), true, &Vec::new()).is_empty());
}

#[test]
fn duplicate_ids_resolve_to_the_first_match() {
    let scripts = vec![record("twin", "first"), record("twin", "second")];
    let found = resolve_script(&scripts, &"twin".to_string()).unwrap();
    assert_eq!(found.code, "first");
}
