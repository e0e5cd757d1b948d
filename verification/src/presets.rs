//! The built-in policy catalogues: an ordered list of approval/sandbox
//! pairings and an ordered list of model/reasoning-effort pairings. Pure
//! data; the order is the presentation order and is itself part of the
//! contract.

use vstd::prelude::*;
use crate::policy::AskForApproval;
use crate::policy::SandboxPolicy;
use crate::policy::ReasoningEffort;

verus! {

/// A simple preset pairing an approval policy with a sandbox policy.
#[derive(Debug, Clone)]
pub struct ApprovalPreset {
    /// Stable identifier for the preset.
    pub id: &'static str,
    /// Display label shown in UIs.
    pub label: &'static str,
    /// Short human description shown next to the label in UIs.
    pub description: &'static str,
    /// Approval policy to apply.
    pub approval: AskForApproval,
    /// Sandbox policy to apply.
    pub sandbox: SandboxPolicy,
}

/// A simple preset pairing a model slug with a reasoning effort.
#[derive(Debug, Clone, Copy)]
pub struct ModelPreset {
    /// Stable identifier for the preset.
    pub id: &'static str,
    /// Display label shown in UIs.
    pub label: &'static str,
    /// Short human description shown next to the label in UIs.
    pub description: &'static str,
    /// Model slug (e.g., "gpt-5").
    pub model: &'static str,
    /// Reasoning effort to apply for this preset.
    pub effort: ReasoningEffort,
}

/// The approval-preset catalogue, entry by entry: identifiers, approval
/// modes and sandbox policies are all pinned, in presentation order.
pub open spec fn spec_approval_catalogue(s: Seq<ApprovalPreset>) -> bool {
    &&& s.len() == 3
    &&& s[0].id@ == "read-only"@
    &&& s[0].approval == AskForApproval::OnRequest
    &&& s[0].sandbox == SandboxPolicy::ReadOnly
    &&& s[1].id@ == "auto"@
    &&& s[1].approval == AskForApproval::OnRequest
    &&& (s[1].sandbox matches SandboxPolicy::WorkspaceWrite { writable_roots, network_access }
        && writable_roots@ =~= Seq::<String>::empty() && network_access == false)
    &&& s[2].id@ == "full-access"@
    &&& s[2].approval == AskForApproval::Never
    &&& s[2].sandbox == SandboxPolicy::DangerFullAccess
}

/// Built-in list of approval presets that pair approval and sandbox policy.
///
/// Keep this UI-agnostic so it can be reused by both TUI and MCP server.
pub fn builtin_approval_presets() -> (r: Vec<ApprovalPreset>)
    ensures
        spec_approval_catalogue(r@),
{
    let mut v: Vec<ApprovalPreset> = Vec::new();
    v.push(ApprovalPreset {
        id: "read-only",
        label: "只读",
        description: "Codex 可以读取文件并回答问题。进行编辑、运行命令或访问网络需要审批",
        approval: AskForApproval::OnRequest,
        sandbox: SandboxPolicy::ReadOnly,
    });
    v.push(ApprovalPreset {
        id: "auto",
        label: "自动",
        description: "Codex 可以读取文件、进行编辑，并在工作区内运行命令。对工作区外的操作或访问网络需要审批",
        approval: AskForApproval::OnRequest,
        sandbox: SandboxPolicy::new_workspace_write_policy(),
    });
    v.push(ApprovalPreset {
        id: "full-access",
        label: "完全访问",
        description: "Codex 可以读取文件、进行编辑，并在无需审批的情况下运行带网络访问的命令。请谨慎使用",
        approval: AskForApproval::Never,
        sandbox: SandboxPolicy::DangerFullAccess,
    });
    v
}

/// The model-preset catalogue, entry by entry, in presentation order; the
/// order reflects effort from minimal to high.
pub open spec fn spec_model_catalogue(s: Seq<ModelPreset>) -> bool {
    &&& s.len() == 4
    &&& s[0].id@ == "gpt-5-minimal"@
    &&& s[0].model@ == "gpt-5"@
    &&& s[0].effort == ReasoningEffort::Minimal
    &&& s[1].id@ == "gpt-5-low"@
    &&& s[1].model@ == "gpt-5"@
    &&& s[1].effort == ReasoningEffort::Low
    &&& s[2].id@ == "gpt-5-medium"@
    &&& s[2].model@ == "gpt-5"@
    &&& s[2].effort == ReasoningEffort::Medium
    &&& s[3].id@ == "gpt-5-high"@
    &&& s[3].model@ == "gpt-5"@
    &&& s[3].effort == ReasoningEffort::High
}

/// Built-in list of model presets that pair a model with a reasoning effort.
///
/// Keep this UI-agnostic so it can be reused by both TUI and MCP server.
pub fn builtin_model_presets() -> (r: Vec<ModelPreset>)
    ensures
        spec_model_catalogue(r@),
{
    let mut v: Vec<ModelPreset> = Vec::new();
    v.push(ModelPreset {
        id: "gpt-5-minimal",
        label: "gpt-5 minimal",
        description: "— 响应最快，推理有限；适合编码、指令或轻量任务",
        model: "gpt-5",
        effort: ReasoningEffort::Minimal,
    });
    v.push(ModelPreset {
        id: "gpt-5-low",
        label: "gpt-5 low",
        description: "— 速度与一定推理的平衡；适合简单问题与简短说明",
        model: "gpt-5",
        effort: ReasoningEffort::Low,
    });
    v.push(ModelPreset {
        id: "gpt-5-medium",
        label: "gpt-5 medium",
        description: "— 默认设置；在推理深度与延迟之间提供良好平衡，适合通用任务",
        model: "gpt-5",
        effort: ReasoningEffort::Medium,
    });
    v.push(ModelPreset {
        id: "gpt-5-high",
        label: "gpt-5 high",
        description: "— 最大化推理深度，适合复杂或含糊的问题",
        model: "gpt-5",
        effort: ReasoningEffort::High,
    });
    v
}

/// Law: in the approval-preset catalogue every identifier is non-empty and
/// no two entries share one, and any two sequences satisfying the catalogue
/// description agree entry-wise on identifier, approval mode and sandbox
/// policy — so the catalogue order is stable across repeated calls.
pub proof fn lemma_approval_catalogue_ids(a: Seq<ApprovalPreset>, b: Seq<ApprovalPreset>)
    requires
        spec_approval_catalogue(a),
        spec_approval_catalogue(b),
    ensures
        forall|i: int| 0 <= i < a.len() ==> a[i].id@.len() > 0,
        forall|i: int, j: int|
            0 <= i < a.len() && 0 <= j < a.len() && i != j ==> a[i].id@ != a[j].id@,
        a.len() == b.len(),
        forall|i: int|
            0 <= i < a.len()
                ==> a[i].id@ == b[i].id@ && a[i].approval == b[i].approval
                && a[i].sandbox.spec_has_full_network_access()
                    == b[i].sandbox.spec_has_full_network_access(),
{
    reveal_strlit("read-only");
    reveal_strlit("auto");
    reveal_strlit("full-access");
    assert forall|i: int| 0 <= i < a.len() implies a[i].id@.len() > 0 by {
        if i == 0 {
        } else if i == 1 {
        } else {
        }
    }
    assert forall|i: int, j: int|
        0 <= i < a.len() && 0 <= j < a.len() && i != j implies a[i].id@ != a[j].id@ by {
        assert(a[0].id@.len() == 9);
        assert(a[1].id@.len() == 4);
        assert(a[2].id@.len() == 11);
    }
    assert forall|i: int|
        0 <= i < a.len() implies a[i].id@ == b[i].id@ && a[i].approval == b[i].approval
        && a[i].sandbox.spec_has_full_network_access()
            == b[i].sandbox.spec_has_full_network_access() by {
        if i == 0 {
        } else if i == 1 {
        } else {
        }
    }
}

/// Law: in the model-preset catalogue every identifier is non-empty, no two
/// entries share one, and reasoning effort strictly increases along the
/// presentation order; two sequences satisfying the catalogue description
/// agree entry-wise, so the order is stable across repeated calls.
pub proof fn lemma_model_catalogue_ids(a: Seq<ModelPreset>, b: Seq<ModelPreset>)
    requires
        spec_model_catalogue(a),
        spec_model_catalogue(b),
    ensures
        forall|i: int| 0 <= i < a.len() ==> a[i].id@.len() > 0,
        forall|i: int, j: int|
            0 <= i < a.len() && 0 <= j < a.len() && i != j ==> a[i].id@ != a[j].id@,
        forall|i: int, j: int|
            0 <= i < j < a.len() ==> a[i].effort.rank() < a[j].effort.rank(),
        a.len() == b.len(),
        forall|i: int|
            0 <= i < a.len() ==> a[i].id@ == b[i].id@ && a[i].effort == b[i].effort,
{
    reveal_strlit("gpt-5-minimal");
    reveal_strlit("gpt-5-low");
    reveal_strlit("gpt-5-medium");
    reveal_strlit("gpt-5-high");
    assert forall|i: int| 0 <= i < a.len() implies a[i].id@.len() > 0 by {
        if i == 0 {
        } else if i == 1 {
        } else if i == 2 {
        } else {
        }
    }
    assert forall|i: int, j: int|
        0 <= i < a.len() && 0 <= j < a.len() && i != j implies a[i].id@ != a[j].id@ by {
        assert(a[0].id@.len() == 13);
        assert(a[1].id@.len() == 9);
        assert(a[2].id@.len() == 12);
        assert(a[3].id@.len() == 10);
    }
}

} // verus!
