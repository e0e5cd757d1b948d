use codex_policy::policy::AskForApproval;
use codex_policy::policy::ReasoningEffort;
use codex_policy::policy::SandboxPolicy;
use codex_policy::presets::builtin_approval_presets;
use codex_policy::presets::builtin_model_presets;

#[test]
fn approval_preset_ids_are_unique_and_non_empty() {
    let presets = builtin_approval_presets();
    for p in &presets {
        assert!(!p.id.is_empty());
    }
    for i in 0..presets.len() {
        for j in 0..presets.len() {
            if i != j {
                assert_ne!(presets[i].id, presets[j].id);
            }
        }
    }
}

#[test]
fn approval_preset_order_is_stable_across_calls() {
    let a = builtin_approval_presets();
    let b = builtin_approval_presets();
    assert_eq!(a.len(), b.len());
    for (x, y) in a.iter().zip(b.iter()) {
        assert_eq!(x.id, y.id);
        assert_eq!(x.approval, y.approval);
        assert_eq!(x.sandbox, y.sandbox);
    }
}

#[test]
fn approval_presets_pair_approval_with_sandbox() {
    let presets = builtin_approval_presets();
    assert_eq!(presets.len(), 3);

    assert_eq!(presets[0].id, "read-only");
    assert_eq!(presets[0].approval, AskForApproval::OnRequest);
    assert_eq!(presets[0].sandbox, SandboxPolicy::ReadOnly);

    assert_eq!(presets[1].id, "auto");
    assert_eq!(presets[1].approval, AskForApproval::OnRequest);
    match &presets[1].sandbox {
        SandboxPolicy::WorkspaceWrite {
            writable_roots,
            network_access,
        } => {
            assert!(writable_roots.is_empty());
            assert!(!network_access);
        }
        other => panic!("auto preset should confine writes to the workspace, got {other:?}"),
    }

    assert_eq!(presets[2].id, "full-access");
    assert_eq!(presets[2].approval, AskForApproval::Never);
    assert_eq!(presets[2].sandbox, SandboxPolicy::DangerFullAccess);
}

#[test]
fn full_access_is_never_the_first_offered_preset() {
    let presets = builtin_approval_presets();
    assert!(!presets[0].sandbox.has_full_disk_write_access());
    assert!(!presets[0].sandbox.has_full_network_access());
}

#[test]
fn model_preset_ids_are_unique_and_non_empty() {
    let presets = builtin_model_presets();
    for p in &presets {
        assert!(!p.id.is_empty());
    }
    for i in 0..presets.len() {
        for j in 0..presets.len() {
            if i != j {
                assert_ne!(presets[i].id, presets[j].id);
            }
        }
    }
}

#[test]
fn model_presets_order_reflects_effort_low_to_high() {
    let presets = builtin_model_presets();
    assert_eq!(presets.len(), 4);
    assert_eq!(presets[0].effort, ReasoningEffort::Minimal);
    assert_eq!(presets[1].effort, ReasoningEffort::Low);
    assert_eq!(presets[2].effort, ReasoningEffort::Medium);
    assert_eq!(presets[3].effort, ReasoningEffort::High);
    for p in &presets {
        assert_eq!(p.model, "gpt-5");
    }
    assert_eq!(presets[0].id, "gpt-5-minimal");
    assert_eq!(presets[1].id, "gpt-5-low");
    assert_eq!(presets[2].id, "gpt-5-medium");
    assert_eq!(presets[3].id, "gpt-5-high");
}

#[test]
fn workspace_write_policy_denies_network_by_default() {
    let policy = SandboxPolicy::new_workspace_write_policy();
    assert!(!policy.has_full_network_access());
    assert!(!policy.has_full_disk_write_access());
    assert!(SandboxPolicy::DangerFullAccess.has_full_network_access());
    assert!(SandboxPolicy::DangerFullAccess.has_full_disk_write_access());
    assert!(!SandboxPolicy::ReadOnly.has_full_network_access());
}
