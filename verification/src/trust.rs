//! The one-time trust decision for a working directory: resolving the scope
//! of trust to a version-control root, the prompt's input-level state
//! machine, and the downstream effect of the decision on the approval mode.
//!
//! Reading the stored record, resolving the repository root and persisting a
//! grant are all I/O performed by external collaborators; this module takes
//! their results as plain values and decides everything else.

use vstd::prelude::*;
use vstd::string::StringExecFns;
use crate::policy::AskForApproval;

verus! {

/// The user's answer at the trust prompt.
#[derive(Clone, Copy, Debug, PartialEq, Eq, Structural)]
pub enum TrustDirectorySelection {
    Trust,
    DontTrust,
}

/// Where the trust prompt stands within the onboarding flow.
#[derive(Clone, Copy, Debug, PartialEq, Eq, Structural)]
pub enum StepState {
    /// The prompt is still awaiting an answer.
    InProgress,
    /// An answer was given; the step is done.
    Complete,
}

/// The logical inputs the trust prompt accepts, independent of the concrete
/// input device. Anything else is ignored at this layer.
#[derive(Clone, Copy, Debug, PartialEq, Eq, Structural)]
pub enum TrustInput {
    /// Move the highlight to the trust option.
    HighlightTrust,
    /// Move the highlight to the decline option.
    HighlightDontTrust,
    /// Select the trust option directly by its ordinal.
    ChooseTrust,
    /// Select the decline option directly by its ordinal.
    ChooseDontTrust,
    /// Confirm whichever option is highlighted.
    Confirm,
    /// Any input the prompt does not react to.
    Ignored,
}

/// Where the trust decision stands for a session: either the prompt must be
/// shown, or a decision — stored or fresh — already stands, terminal for the
/// session.
#[derive(Clone, Copy, Debug, PartialEq, Eq, Structural)]
pub enum TrustGateState {
    /// No record exists for the resolved scope; the prompt must be shown.
    AwaitingDecision,
    /// A decision stands; no prompt.
    Decided(TrustDirectorySelection),
}

/// The directory boundary a trust decision applies to: the repository root
/// when the resolver found one, the working directory itself otherwise.
pub open spec fn spec_trust_scope(cwd: Seq<char>, repo_root: Option<Seq<char>>) -> Seq<char> {
    match repo_root {
        Some(r) => r,
        None => cwd,
    }
}

/// Resolves the trust scope for `cwd`, given what the version-control root
/// resolver found.
pub fn resolve_trust_scope(cwd: &String, repo_root: &Option<String>) -> (r: String)
    ensures
        r@ == spec_trust_scope(cwd@, repo_root.deep_view()),
{
    match repo_root {
        Some(root) => root.clone(),
        None => cwd.clone(),
    }
}

/// Whether `anc` is the same path as `dir` or a strict ancestor of it, going
/// by path-separator boundaries.
pub open spec fn spec_is_ancestor_or_self(anc: Seq<char>, dir: Seq<char>) -> bool {
    anc == dir || (anc.len() < dir.len() && dir.subrange(0, anc.len() as int) == anc && dir[
        anc.len() as int
    ] == '/')
}

/// Law: the trust scope is an ancestor-or-self of the directory the
/// decision was made for, whenever the resolver hands back an ancestor of
/// that directory — and the directory itself when the resolver found
/// nothing.
pub proof fn lemma_trust_scope_ancestor_or_self(cwd: Seq<char>, repo_root: Option<Seq<char>>)
    requires
        repo_root matches Some(r) ==> spec_is_ancestor_or_self(r, cwd),
    ensures
        spec_is_ancestor_or_self(spec_trust_scope(cwd, repo_root), cwd),
        repo_root is None ==> spec_trust_scope(cwd, repo_root) == cwd,
{
}

/// The state at session start, from the stored record for the resolved
/// scope: a stored grant or refusal decides directly, with no prompt; no
/// record means the prompt must be shown.
pub open spec fn spec_gate_state_on_start(stored: Option<bool>) -> TrustGateState {
    match stored {
        Some(true) => TrustGateState::Decided(TrustDirectorySelection::Trust),
        Some(false) => TrustGateState::Decided(TrustDirectorySelection::DontTrust),
        None => TrustGateState::AwaitingDecision,
    }
}

/// Computes the state at session start from the stored record.
pub fn gate_state_on_session_start(stored: Option<bool>) -> (r: TrustGateState)
    ensures
        r == spec_gate_state_on_start(stored),
{
    match stored {
        Some(true) => TrustGateState::Decided(TrustDirectorySelection::Trust),
        Some(false) => TrustGateState::Decided(TrustDirectorySelection::DontTrust),
        None => TrustGateState::AwaitingDecision,
    }
}

/// The approval mode that actually governs a session: a scope decided
/// trusted unlocks the preset's own mode; anything else forces on-request
/// approval regardless of the preset's nominal field.
pub open spec fn spec_effective_approval_mode(
    preset_approval: AskForApproval,
    trusted: bool,
) -> AskForApproval {
    if trusted {
        preset_approval
    } else {
        AskForApproval::OnRequest
    }
}

/// Computes the approval mode that actually governs a session.
pub fn effective_approval_mode(preset_approval: AskForApproval, trusted: bool) -> (r:
    AskForApproval)
    ensures
        r == spec_effective_approval_mode(preset_approval, trusted),
{
    if trusted {
        preset_approval
    } else {
        AskForApproval::OnRequest
    }
}

/// Whether an input, against the current highlight, selects the trust
/// option — the one transition that asks the caller to persist a record.
pub open spec fn spec_requests_persist(
    input: TrustInput,
    highlighted: TrustDirectorySelection,
) -> bool {
    input == TrustInput::ChooseTrust || (input == TrustInput::Confirm && highlighted
        == TrustDirectorySelection::Trust)
}

/// Law: declining trust — by ordinal or by confirming the highlighted
/// decline option — requests no persistence, and a scope with no stored
/// record prompts again at the next session start.
pub proof fn lemma_decline_never_persists(input: TrustInput, highlighted: TrustDirectorySelection)
    requires
        input == TrustInput::ChooseDontTrust || (input == TrustInput::Confirm && highlighted
            == TrustDirectorySelection::DontTrust),
    ensures
        !spec_requests_persist(input, highlighted),
        spec_gate_state_on_start(None) == TrustGateState::AwaitingDecision,
{
}

/// The message shown when persisting a trust grant for `target` failed with
/// `err`: a non-fatal warning, since an unpersisted grant must be
/// re-confirmed next session.
pub open spec fn spec_trust_error_message(target: Seq<char>, err: Seq<char>) -> Seq<char> {
    "未能为……设置信任 "@ + target + ": "@ + err
}

/// The trust prompt: the directories it was opened for, the highlighted
/// option, the answer once one was given, and a persistence warning, if
/// any.
#[derive(Debug, Clone, PartialEq, Eq)]
pub struct TrustDirectoryWidget {
    /// The tool's per-user home directory, under which grants are stored.
    pub codex_home: String,
    /// The working directory the session started in.
    pub cwd: String,
    /// Whether `cwd` is under version control.
    pub is_git_repo: bool,
    /// The answer, once the user gave one; terminal for the session.
    pub selection: Option<TrustDirectorySelection>,
    /// The currently highlighted option.
    pub highlighted: TrustDirectorySelection,
    /// A non-fatal warning when persisting the grant failed.
    pub error: Option<String>,
}

impl TrustDirectoryWidget {
    /// Advances the prompt on one logical input. Highlight moves and
    /// declines are applied in place; the result says whether the caller
    /// must now resolve the trust scope, attempt to persist the grant, and
    /// hand the outcome to [`Self::handle_trust`].
    pub fn handle_key_event(&mut self, input: TrustInput) -> (r: bool)
        ensures
            r == spec_requests_persist(input, old(self).highlighted),
            final(self).codex_home == old(self).codex_home,
            final(self).cwd == old(self).cwd,
            final(self).is_git_repo == old(self).is_git_repo,
            final(self).error == old(self).error,
            match input {
                TrustInput::HighlightTrust => final(self).highlighted
                    == TrustDirectorySelection::Trust && final(self).selection
                    == old(self).selection,
                TrustInput::HighlightDontTrust => final(self).highlighted
                    == TrustDirectorySelection::DontTrust && final(self).selection
                    == old(self).selection,
                TrustInput::ChooseTrust => *final(self) == *old(self),
                TrustInput::ChooseDontTrust => final(self).highlighted
                    == TrustDirectorySelection::DontTrust && final(self).selection
                    == Some(TrustDirectorySelection::DontTrust),
                TrustInput::Confirm => if old(self).highlighted
                    == TrustDirectorySelection::Trust {
                    *final(self) == *old(self)
                } else {
                    final(self).highlighted == TrustDirectorySelection::DontTrust
                        && final(self).selection == Some(TrustDirectorySelection::DontTrust)
                },
                TrustInput::Ignored => *final(self) == *old(self),
            },
    {
        match input {
            TrustInput::HighlightTrust => {
                self.highlighted = TrustDirectorySelection::Trust;
                false
            },
            TrustInput::HighlightDontTrust => {
                self.highlighted = TrustDirectorySelection::DontTrust;
                false
            },
            TrustInput::ChooseTrust => true,
            TrustInput::ChooseDontTrust => {
                self.handle_dont_trust();
                false
            },
            TrustInput::Confirm => {
                if self.highlighted == TrustDirectorySelection::Trust {
                    true
                } else {
                    self.handle_dont_trust();
                    false
                }
            },
            TrustInput::Ignored => false,
        }
    }

    /// Records the trust answer, after the caller attempted to persist the
    /// grant for `target`: a persistence failure becomes a non-fatal
    /// warning, and the session still proceeds as trusted in memory.
    pub fn handle_trust(&mut self, target: &String, persist_error: Option<String>)
        ensures
            final(self).selection == Some(TrustDirectorySelection::Trust),
            final(self).codex_home == old(self).codex_home,
            final(self).cwd == old(self).cwd,
            final(self).is_git_repo == old(self).is_git_repo,
            final(self).highlighted == old(self).highlighted,
            match persist_error {
                Some(e) => final(self).error matches Some(m) && m@ == spec_trust_error_message(
                    target@,
                    e@,
                ),
                None => final(self).error == old(self).error,
            },
    {
        match persist_error {
            Some(e) => {
                let mut msg = String::from_str("未能为……设置信任 ");
                msg.append(target.as_str());
                msg.append(": ");
                msg.append(e.as_str());
                proof {
                    assert(msg@ =~= spec_trust_error_message(target@, e@));
                }
                self.error = Some(msg);
            },
            None => {},
        }
        self.selection = Some(TrustDirectorySelection::Trust);
    }

    /// Records a decline: the highlight and the answer both move to the
    /// decline option, and nothing is persisted.
    pub fn handle_dont_trust(&mut self)
        ensures
            final(self).highlighted == TrustDirectorySelection::DontTrust,
            final(self).selection == Some(TrustDirectorySelection::DontTrust),
            final(self).codex_home == old(self).codex_home,
            final(self).cwd == old(self).cwd,
            final(self).is_git_repo == old(self).is_git_repo,
            final(self).error == old(self).error,
    {
        self.highlighted = TrustDirectorySelection::DontTrust;
        self.selection = Some(TrustDirectorySelection::DontTrust);
    }

    /// Where the prompt stands: complete exactly when an answer was given.
    pub fn get_step_state(&self) -> (r: StepState)
        ensures
            r == StepState::Complete <==> self.selection is Some,
    {
        match self.selection {
            Some(_) => StepState::Complete,
            None => StepState::InProgress,
        }
    }
}

} // verus!
