use std::collections::HashMap;

use codex_policy::policy::AskForApproval;
use codex_policy::trust::StepState;
use codex_policy::trust::TrustDirectorySelection;
use codex_policy::trust::TrustDirectoryWidget;
use codex_policy::trust::TrustGateState;
use codex_policy::trust::TrustInput;
use codex_policy::trust::effective_approval_mode;
use codex_policy::trust::gate_state_on_session_start;
use codex_policy::trust::resolve_trust_scope;

fn widget(cwd: &str, is_git_repo: bool) -> TrustDirectoryWidget {
    TrustDirectoryWidget {
        codex_home: "/home/user/.codex".to_string(),
        cwd: cwd.to_string(),
        is_git_repo,
        selection: None,
        highlighted: TrustDirectorySelection::Trust,
        error: None,
    }
}

#[test]
fn scope_of_plain_directory_is_the_directory_itself() {
    let scope = resolve_trust_scope(&"/home/user/notes".to_string(), &None);
    assert_eq!(scope, "/home/user/notes");
}

#[test]
fn scope_of_nested_directory_is_the_repo_root() {
    let scope = resolve_trust_scope(
        &"/home/user/repo/src/deep".to_string(),
        &Some("/home/user/repo".to_string()),
    );
    assert_eq!(scope, "/home/user/repo");
}

#[test]
fn trusting_nested_directory_persists_under_repo_root() {
    let mut store: HashMap<String, bool> = HashMap::new();
    let mut w = widget("/home/user/repo/src/deep", true);
    let repo_root = Some("/home/user/repo".to_string());

    let wants_persist = w.handle_key_event(TrustInput::ChooseTrust);
    assert!(wants_persist);
    let target = resolve_trust_scope(&w.cwd, &repo_root);
    store.insert(target.clone(), true);
    w.handle_trust(&target, None);

    assert_eq!(w.selection, Some(TrustDirectorySelection::Trust));
    assert_eq!(w.error, None);
    assert_eq!(store.get("/home/user/repo"), Some(&true));
    assert!(!store.contains_key("/home/user/repo/src/deep"));
}

#[test]
fn declining_trust_writes_no_record_and_reprompts() {
    let mut store: HashMap<String, bool> = HashMap::new();
    let mut w = widget("/home/user/repo", true);

    let wants_persist = w.handle_key_event(TrustInput::ChooseDontTrust);
    assert!(!wants_persist);
    assert_eq!(w.selection, Some(TrustDirectorySelection::DontTrust));
    assert!(store.is_empty());

    // Next session: still no record for the scope, so the user is prompted again.
    let stored = store.get("/home/user/repo").copied();
    assert_eq!(
        gate_state_on_session_start(stored),
        TrustGateState::AwaitingDecision
    );
}

#[test]
fn confirm_acts_on_the_highlighted_option() {
    let mut w = widget("/home/user/repo", true);
    assert!(!w.handle_key_event(TrustInput::HighlightDontTrust));
    assert_eq!(w.highlighted, TrustDirectorySelection::DontTrust);
    assert!(!w.handle_key_event(TrustInput::HighlightTrust));
    assert_eq!(w.highlighted, TrustDirectorySelection::Trust);
    assert!(w.handle_key_event(TrustInput::Confirm));

    let mut d = widget("/home/user/repo", true);
    assert!(!d.handle_key_event(TrustInput::HighlightDontTrust));
    assert!(!d.handle_key_event(TrustInput::Confirm));
    assert_eq!(d.selection, Some(TrustDirectorySelection::DontTrust));
}

#[test]
fn ignored_input_changes_nothing() {
    let mut w = widget("/home/user/repo", true);
    let before = w.clone();
    assert!(!w.handle_key_event(TrustInput::Ignored));
    assert_eq!(w, before);
}

#[test]
fn persist_failure_is_a_non_fatal_warning() {
    let mut w = widget("/home/user/repo", true);
    assert!(w.handle_key_event(TrustInput::ChooseTrust));
    let target = resolve_trust_scope(&w.cwd, &None);
    w.handle_trust(&target, Some("permission denied".to_string()));

    // The session still proceeds as trusted in memory, with a warning.
    assert_eq!(w.selection, Some(TrustDirectorySelection::Trust));
    assert_eq!(
        w.error,
        Some("未能为……设置信任 /home/user/repo: permission denied".to_string())
    );
    assert_eq!(w.get_step_state(), StepState::Complete);
}

#[test]
fn step_state_tracks_whether_an_answer_was_given() {
    let mut w = widget("/home/user/repo", true);
    assert_eq!(w.get_step_state(), StepState::InProgress);
    w.handle_dont_trust();
    assert_eq!(w.get_step_state(), StepState::Complete);
}

#[test]
fn stored_decisions_skip_the_prompt() {
    assert_eq!(
        gate_state_on_session_start(Some(true)),
        TrustGateState::Decided(TrustDirectorySelection::Trust)
    );
    assert_eq!(
        gate_state_on_session_start(Some(false)),
        TrustGateState::Decided(TrustDirectorySelection::DontTrust)
    );
    assert_eq!(
        gate_state_on_session_start(None),
        TrustGateState::AwaitingDecision
    );
}

#[test]
fn untrusted_scope_forces_on_request_approval() {
    assert_eq!(
        effective_approval_mode(AskForApproval::Never, false),
        AskForApproval::OnRequest
    );
    assert_eq!(
        effective_approval_mode(AskForApproval::Never, true),
        AskForApproval::Never
    );
    assert_eq!(
        effective_approval_mode(AskForApproval::OnRequest, true),
        AskForApproval::OnRequest
    );
}

#[test]
fn trust_flow_end_to_end() {
    // A session starts in an untrusted, version-controlled nested directory.
    let mut store: HashMap<String, bool> = HashMap::new();
    let cwd = "/home/user/repo/crates/app".to_string();
    let repo_root = Some("/home/user/repo".to_string());
    let scope = resolve_trust_scope(&cwd, &repo_root);
    assert_eq!(scope, "/home/user/repo");

    // No record for the scope: a decision is awaited.
    assert_eq!(
        gate_state_on_session_start(store.get(scope.as_str()).copied()),
        TrustGateState::AwaitingDecision
    );

    // The user selects "trust": a record is persisted for the root.
    let mut w = widget(&cwd, true);
    assert!(w.handle_key_event(TrustInput::Confirm));
    store.insert(scope.clone(), true);
    w.handle_trust(&scope, None);
    assert_eq!(w.selection, Some(TrustDirectorySelection::Trust));

    // The next session in the same scope skips the prompt and may run
    // unattended under the chosen preset.
    let next = gate_state_on_session_start(store.get(scope.as_str()).copied());
    assert_eq!(next, TrustGateState::Decided(TrustDirectorySelection::Trust));
    let trusted = next == TrustGateState::Decided(TrustDirectorySelection::Trust);
    assert_eq!(
        effective_approval_mode(AskForApproval::Never, trusted),
        AskForApproval::Never
    );
}
