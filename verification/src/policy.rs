//! The two orthogonal policy axes of a session — when the agent must pause
//! for human approval, and what the sandboxed execution environment permits —
//! together with the reasoning-effort dial for model presets.

use vstd::prelude::*;

verus! {

/// When the agent must pause for human confirmation before acting.
///
/// Exactly one mode is active per session. The set is open to further modes
/// by future policy work.
#[derive(Clone, Copy, Debug, PartialEq, Eq, Structural)]
pub enum AskForApproval {
    /// Pause for operations outside the granted sandbox.
    OnRequest,
    /// Never pause; the sandbox alone limits blast radius.
    Never,
}

/// What the execution environment itself permits, independent of approval.
///
/// Given any mode, the set of permitted filesystem roots and the
/// network-permission bit are fully determined; no flag elsewhere may widen
/// what a mode allows.
#[derive(Clone, Debug, PartialEq, Eq)]
pub enum SandboxPolicy {
    /// No filesystem mutation, no network.
    ReadOnly,
    /// Mutation confined to the working tree plus conventional scratch
    /// locations; network denied unless `network_access` is set.
    WorkspaceWrite { writable_roots: Vec<String>, network_access: bool },
    /// No enforcement at all. Never a default; reachable only by explicit
    /// user choice.
    DangerFullAccess,
}

impl SandboxPolicy {
    /// The canonical workspace-write configuration: only the working tree
    /// and the standard scratch locations (no extra roots), network denied.
    pub fn new_workspace_write_policy() -> (r: SandboxPolicy)
        ensures
            r matches SandboxPolicy::WorkspaceWrite { writable_roots, network_access }
                && writable_roots@ =~= Seq::<String>::empty() && network_access == false,
    {
        SandboxPolicy::WorkspaceWrite { writable_roots: Vec::new(), network_access: false }
    }

    /// Whether this policy permits unrestricted network access.
    pub open spec fn spec_has_full_network_access(&self) -> bool {
        match *self {
            SandboxPolicy::ReadOnly => false,
            SandboxPolicy::WorkspaceWrite { network_access, .. } => network_access,
            SandboxPolicy::DangerFullAccess => true,
        }
    }

    /// Whether this policy permits unrestricted network access.
    pub fn has_full_network_access(&self) -> (r: bool)
        ensures
            r == self.spec_has_full_network_access(),
    {
        match self {
            SandboxPolicy::ReadOnly => false,
            SandboxPolicy::WorkspaceWrite { network_access, .. } => *network_access,
            SandboxPolicy::DangerFullAccess => true,
        }
    }

    /// Whether this policy permits writing anywhere on disk.
    pub open spec fn spec_has_full_disk_write_access(&self) -> bool {
        self matches SandboxPolicy::DangerFullAccess
    }

    /// Whether this policy permits writing anywhere on disk.
    pub fn has_full_disk_write_access(&self) -> (r: bool)
        ensures
            r == self.spec_has_full_disk_write_access(),
    {
        matches!(self, SandboxPolicy::DangerFullAccess)
    }
}

/// The model-configuration dial trading response latency for reasoning
/// depth, ordered low to high.
#[derive(Clone, Copy, Debug, PartialEq, Eq, Structural)]
pub enum ReasoningEffort {
    Minimal,
    Low,
    Medium,
    High,
}

impl ReasoningEffort {
    /// Position of this effort on the low-to-high scale.
    pub open spec fn rank(self) -> int {
        match self {
            ReasoningEffort::Minimal => 0,
            ReasoningEffort::Low => 1,
            ReasoningEffort::Medium => 2,
            ReasoningEffort::High => 3,
        }
    }
}

} // verus!
