//! The two fault classifiers. One maps a raw sandboxed-process outcome to
//! exactly one execution fault, in a fixed priority order; the other attaches
//! a retry directive to a session fault, distinguishing retryable transport
//! faults from terminal account-state faults, against a bounded retry budget.

use vstd::prelude::*;
use crate::error::CodexErr;
use crate::error::SandboxErr;

verus! {

/// Which stage of sandbox setup failed before the command ran.
#[derive(Debug, Clone, Copy, PartialEq, Eq, Structural)]
pub enum SetupStage {
    /// The syscall filter could not be installed.
    FilterInstall,
    /// The filtering backend itself failed.
    Backend,
}

/// How far the platform sandbox got in installing its restrictions.
#[derive(Debug, Clone, PartialEq, Eq)]
pub enum EnforcementStatus {
    /// Every requested restriction is in place.
    Complete,
    /// Only part of the requested restrictions could be installed.
    Incomplete,
    /// Installation failed outright at the given stage, before the command
    /// ran at all; carries the backend's rendered report.
    SetupFailed { stage: SetupStage, detail: String },
}

/// A raw process-completion record, produced once per command invocation by
/// the execution collaborator and never mutated after construction.
#[derive(Debug, Clone, PartialEq, Eq)]
pub struct ProcessOutcome {
    /// Exit code of the process.
    pub exit_code: i32,
    /// Captured standard output.
    pub stdout: String,
    /// Captured standard error.
    pub stderr: String,
    /// The terminating signal, when a signal ended the process.
    pub signal: Option<i32>,
    /// Whether a deadline elapsed before completion.
    pub timed_out: bool,
    /// How far sandbox installation got.
    pub enforcement: EnforcementStatus,
    /// Whether the sandbox determined the operation was itself the cause of
    /// a non-zero exit, rather than a normal command failure.
    pub denied_by_sandbox: bool,
}

/// The execution fault for a process outcome, by priority: a setup failure
/// before anything else, then partial enforcement, then a timeout, then a
/// signal, then a sandbox denial carrying both streams verbatim; a normal
/// completion or a plain command failure classifies as no sandbox fault.
pub open spec fn spec_classify_execution(o: &ProcessOutcome) -> Option<SandboxErr> {
    match o.enforcement {
        EnforcementStatus::SetupFailed { stage, ref detail } => Some(
            match stage {
                SetupStage::FilterInstall => SandboxErr::SeccompInstall(*detail),
                SetupStage::Backend => SandboxErr::SeccompBackend(*detail),
            },
        ),
        EnforcementStatus::Incomplete => Some(SandboxErr::LandlockRestrict),
        EnforcementStatus::Complete => if o.timed_out {
            Some(SandboxErr::Timeout)
        } else {
            match o.signal {
                Some(n) => Some(SandboxErr::Signal(n)),
                None => if o.exit_code != 0 && o.denied_by_sandbox {
                    Some(SandboxErr::Denied(o.exit_code, o.stdout, o.stderr))
                } else {
                    None
                },
            }
        },
    }
}

/// Maps a raw process outcome to its execution fault, if it has one.
pub fn classify_execution(o: &ProcessOutcome) -> (r: Option<SandboxErr>)
    ensures
        r == spec_classify_execution(o),
{
    match &o.enforcement {
        EnforcementStatus::SetupFailed { stage, detail } => match stage {
            SetupStage::FilterInstall => Some(SandboxErr::SeccompInstall(detail.clone())),
            SetupStage::Backend => Some(SandboxErr::SeccompBackend(detail.clone())),
        },
        EnforcementStatus::Incomplete => Some(SandboxErr::LandlockRestrict),
        EnforcementStatus::Complete => {
            if o.timed_out {
                Some(SandboxErr::Timeout)
            } else if let Some(n) = o.signal {
                Some(SandboxErr::Signal(n))
            } else if o.exit_code != 0 && o.denied_by_sandbox {
                Some(SandboxErr::Denied(o.exit_code, o.stdout.clone(), o.stderr.clone()))
            } else {
                None
            }
        },
    }
}

/// The retry directive attached to a classified session fault: retry after
/// an optional server-suggested delay (in milliseconds), or give up with a
/// terminal fault.
#[derive(Debug, Clone, PartialEq, Eq)]
pub enum StreamAttemptOutcome {
    /// Retry the turn, after the suggested delay when one is present.
    Retry { after_ms: Option<u64> },
    /// Stop retrying and surface this fault for the current turn.
    Fatal { fault: CodexErr },
}

/// Whether an HTTP status belongs to the transient class worth retrying:
/// request throttling or a server-side failure.
pub open spec fn spec_is_transient_status(code: u16) -> bool {
    code == 429 || (500 <= code && code <= 599)
}

/// Whether a session fault is transient — expected to succeed on retry.
/// Account-state faults, cancellations and local process faults are not.
pub open spec fn spec_is_transient(e: &CodexErr) -> bool {
    match *e {
        CodexErr::Stream(_, _) => true,
        CodexErr::UnexpectedStatus(code, _) => spec_is_transient_status(code),
        CodexErr::InternalServerError => true,
        _ => false,
    }
}

/// The server-suggested retry delay a fault carries, if any.
pub open spec fn spec_suggested_delay(e: &CodexErr) -> Option<u64> {
    match *e {
        CodexErr::Stream(_, d) => d,
        _ => None,
    }
}

/// The terminal fault surfaced once the retry budget is exhausted: a
/// transient status fault becomes the retry-limit fault carrying the last
/// status; any other fault is surfaced unchanged.
pub open spec fn spec_exhausted_fault(e: CodexErr) -> CodexErr {
    match e {
        CodexErr::UnexpectedStatus(code, _) => CodexErr::RetryLimit(code),
        _ => e,
    }
}

/// The retry directive for a fault seen after `retries_used` of
/// `retry_budget` retries: a transient fault within budget is retried after
/// its suggested delay; a transient fault beyond budget, and every
/// non-transient fault, is terminal.
pub open spec fn spec_stream_directive(
    e: CodexErr,
    retries_used: u64,
    retry_budget: u64,
) -> StreamAttemptOutcome {
    if spec_is_transient(&e) && retries_used < retry_budget {
        StreamAttemptOutcome::Retry { after_ms: spec_suggested_delay(&e) }
    } else if spec_is_transient(&e) {
        StreamAttemptOutcome::Fatal { fault: spec_exhausted_fault(e) }
    } else {
        StreamAttemptOutcome::Fatal { fault: e }
    }
}

/// Classifies a session fault and attaches its retry directive.
pub fn classify_stream_fault(e: CodexErr, retries_used: u64, retry_budget: u64) -> (r:
    StreamAttemptOutcome)
    ensures
        r == spec_stream_directive(e, retries_used, retry_budget),
{
    let transient = match &e {
        CodexErr::Stream(_, _) => true,
        CodexErr::UnexpectedStatus(code, _) => *code == 429 || (500 <= *code && *code <= 599),
        CodexErr::InternalServerError => true,
        _ => false,
    };
    if transient && retries_used < retry_budget {
        let after_ms = match &e {
            CodexErr::Stream(_, d) => *d,
            _ => None,
        };
        StreamAttemptOutcome::Retry { after_ms }
    } else if transient {
        match e {
            CodexErr::UnexpectedStatus(code, _) => StreamAttemptOutcome::Fatal {
                fault: CodexErr::RetryLimit(code),
            },
            other => StreamAttemptOutcome::Fatal { fault: other },
        }
    } else {
        StreamAttemptOutcome::Fatal { fault: e }
    }
}

/// Law: a stream disconnection carrying a server-suggested delay, with
/// retry budget remaining, is retried after exactly that delay.
pub proof fn lemma_stream_disconnect_retry(
    msg: String,
    delay_ms: u64,
    retries_used: u64,
    retry_budget: u64,
)
    requires
        retries_used < retry_budget,
    ensures
        spec_stream_directive(CodexErr::Stream(msg, Some(delay_ms)), retries_used, retry_budget)
            == (StreamAttemptOutcome::Retry { after_ms: Some(delay_ms) }),
{
}

/// Law: once the retry budget is exhausted, a transient unexpected-status
/// fault yields the terminal retry-limit fault carrying the last status.
pub proof fn lemma_retry_budget_exhausted(
    code: u16,
    body: String,
    retries_used: u64,
    retry_budget: u64,
)
    requires
        spec_is_transient_status(code),
        retries_used >= retry_budget,
    ensures
        spec_stream_directive(CodexErr::UnexpectedStatus(code, body), retries_used, retry_budget)
            == (StreamAttemptOutcome::Fatal { fault: CodexErr::RetryLimit(code) }),
{
}

/// Law: usage-limit and plan-eligibility faults are terminal whatever
/// retry budget remains, and reach the caller unchanged.
pub proof fn lemma_account_faults_terminal(e: CodexErr, retries_used: u64, retry_budget: u64)
    requires
        e matches CodexErr::UsageLimitReached(_) || e == CodexErr::UsageNotIncluded,
    ensures
        spec_stream_directive(e, retries_used, retry_budget) == (StreamAttemptOutcome::Fatal {
            fault: e,
        }),
{
}

/// Law: a user cancellation is terminal — never retried and never reshaped
/// into a timeout; it reaches the caller as the cancellation fault itself.
pub proof fn lemma_interrupted_is_cancellation(retries_used: u64, retry_budget: u64)
    ensures
        spec_stream_directive(CodexErr::Interrupted, retries_used, retry_budget)
            == (StreamAttemptOutcome::Fatal { fault: CodexErr::Interrupted }),
        spec_stream_directive(CodexErr::Interrupted, retries_used, retry_budget)
            != (StreamAttemptOutcome::Fatal { fault: CodexErr::Timeout }),
{
}

} // verus!
