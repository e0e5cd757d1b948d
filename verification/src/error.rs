//! The two closed fault taxonomies of the core — one for sandboxed command
//! execution, one for the model-communication loop — and the synthesis of
//! their user-facing messages, including the time-until-reset countdown.
//!
//! Each fault is immutable structured data; text is always derived from it,
//! never stored redundantly. Faults whose payload originates in an external
//! collaborator (the transport, the async runtime, the sandbox backends)
//! carry that collaborator's data as plain values: a numeric status code, a
//! session identifier already rendered to text, or the collaborator's own
//! rendered message.

use vstd::prelude::*;
use vstd::string::StringExecFns;
use crate::decimal::spec_dec;
use crate::decimal::spec_dec_signed;
use crate::decimal::u64_dec_string;
use crate::decimal::i32_dec_string;

verus! {

/// A fault from running a command under the sandbox.
#[derive(Debug, Clone, PartialEq, Eq)]
pub enum SandboxErr {
    /// The sandbox determined the operation itself was the cause of the
    /// rejection; carries the exit code and both captured streams verbatim.
    Denied(i32, String, String),
    /// The seccomp filter could not be installed before the command ran;
    /// carries the backend's rendered report.
    SeccompInstall(String),
    /// The seccomp backend failed; carries the backend's rendered report.
    SeccompBackend(String),
    /// A deadline elapsed before the command completed.
    Timeout,
    /// The command was terminated by the given signal.
    Signal(i32),
    /// Landlock could install only part of the requested restrictions.
    LandlockRestrict,
}

/// How far a usage-limited account is from its reset, plus the plan tier,
/// as reported by the service.
#[derive(Debug, Clone, PartialEq, Eq)]
pub struct UsageLimitReachedError {
    /// Plan tier of the account, when the service reported one.
    pub plan_type: Option<String>,
    /// Seconds until the limit resets, when the service reported it.
    pub resets_in_seconds: Option<u64>,
}

/// A required environment variable was missing.
#[derive(Debug, Clone, PartialEq, Eq)]
pub struct EnvVarError {
    /// Name of the environment variable that is missing.
    pub var: String,
    /// Optional instructions to help the user get a valid value for the
    /// variable and set it.
    pub instructions: Option<String>,
}

/// A fault from the model-communication loop or the surrounding session.
///
/// Suggested retry delays are carried in milliseconds; HTTP statuses as
/// their numeric codes; session identifiers already rendered to text.
#[derive(Debug, Clone, PartialEq, Eq)]
pub enum CodexErr {
    /// The response stream disconnected or errored after a successful
    /// handshake but before completion was signaled; carries the transport's
    /// report and the server-suggested retry delay, if any, in milliseconds.
    Stream(String, Option<u64>),
    /// No session exists with the given identifier.
    ConversationNotFound(String),
    /// The session-configured event was not the first event in the stream.
    SessionConfiguredNotFirstEvent,
    /// The spawned child process timed out.
    Timeout,
    /// The child could not be spawned: its stdout/stderr pipes could not be
    /// captured.
    Spawn,
    /// The user cancelled the in-flight action; the session itself
    /// continues.
    Interrupted,
    /// Unexpected HTTP status code, with the response body.
    UnexpectedStatus(u16, String),
    /// The account's usage limit was reached.
    UsageLimitReached(UsageLimitReachedError),
    /// The account's plan does not include this service.
    UsageNotIncluded,
    /// The service is temporarily overloaded.
    InternalServerError,
    /// The retry budget was exhausted; carries the last status code seen.
    RetryLimit(u16),
    /// The agent loop died unexpectedly.
    InternalAgentDied,
    /// A sandbox fault from command execution.
    Sandbox(SandboxErr),
    /// The sandbox helper executable is required but was not provided.
    LandlockSandboxExecutableNotProvided,
    /// An I/O fault, carrying the collaborator's rendered message.
    Io(String),
    /// A transport fault, carrying the collaborator's rendered message.
    Reqwest(String),
    /// A serialization fault, carrying the collaborator's rendered message.
    Json(String),
    /// A Landlock ruleset fault, carrying the collaborator's rendered
    /// message.
    LandlockRuleset(String),
    /// A Landlock path-descriptor fault, carrying the collaborator's
    /// rendered message.
    LandlockPathFd(String),
    /// A task-join fault from the async runtime, carrying the
    /// collaborator's rendered message.
    TokioJoin(String),
    /// A required environment variable was missing.
    EnvVar(EnvVarError),
}

/// The human countdown for `total_secs`: whole days, then whole hours from
/// the remainder, then whole minutes from the remainder (seconds below one
/// minute are dropped); each nonzero unit is rendered and joined with the
/// previous by a single space, most significant first; when all three units
/// are zero, a fixed less-than-one-minute phrase stands instead.
pub open spec fn spec_reset_duration(total_secs: u64) -> Seq<char> {
    let days = total_secs as int / 86400;
    let hours = (total_secs as int % 86400) / 3600;
    let minutes = (total_secs as int % 3600) / 60;
    if days == 0 && hours == 0 && minutes == 0 {
        "不到 1 分钟"@
    } else {
        (if days > 0 {
            spec_dec(days as nat) + " 天"@
        } else {
            Seq::<char>::empty()
        }) + (if hours > 0 {
            (if days > 0 {
                " "@
            } else {
                Seq::<char>::empty()
            }) + spec_dec(hours as nat) + " 小时"@
        } else {
            Seq::<char>::empty()
        }) + (if minutes > 0 {
            (if days > 0 || hours > 0 {
                " "@
            } else {
                Seq::<char>::empty()
            }) + spec_dec(minutes as nat) + " 分钟"@
        } else {
            Seq::<char>::empty()
        })
    }
}

/// Renders the countdown phrase for a reset `total_secs` away.
pub fn format_reset_duration(total_secs: u64) -> (r: String)
    ensures
        r@ == spec_reset_duration(total_secs),
{
    let days = total_secs / 86400;
    let hours = (total_secs % 86400) / 3600;
    let minutes = (total_secs % 3600) / 60;
    if days == 0 && hours == 0 && minutes == 0 {
        return String::from_str("不到 1 分钟");
    }
    let mut s = String::new();
    if days > 0 {
        s.append(u64_dec_string(days).as_str());
        s.append(" 天");
    }
    if hours > 0 {
        if days > 0 {
            s.append(" ");
        }
        s.append(u64_dec_string(hours).as_str());
        s.append(" 小时");
    }
    if minutes > 0 {
        if days > 0 || hours > 0 {
            s.append(" ");
        }
        s.append(u64_dec_string(minutes).as_str());
        s.append(" 分钟");
    }
    proof {
        assert(s@ =~= spec_reset_duration(total_secs));
    }
    s
}

impl UsageLimitReachedError {
    /// The user-facing message: a recognized paid tier gets an upgrade
    /// suggestion, all other or absent tiers a generic limit-reached clause;
    /// a known reset distance appends the countdown of
    /// [`spec_reset_duration`], an unknown one a generic try-again clause.
    pub open spec fn spec_message(&self) -> Seq<char> {
        if self.plan_type matches Some(p) && p@ == "plus"@ {
            "已达到使用上限。升级到 Pro(https://openai.com/chatgpt/pricing)或稍后重试"@
                + (match self.resets_in_seconds {
                Some(secs) => "，大约 "@ + spec_reset_duration(secs) + " 后重置。"@,
                None => "。"@,
            })
        } else {
            "已达到使用上限。"@ + (match self.resets_in_seconds {
                Some(secs) => "请在约 "@ + spec_reset_duration(secs) + " 后重试。"@,
                None => "请稍后重试。"@,
            })
        }
    }

    /// Renders the user-facing message.
    pub fn message(&self) -> (r: String)
        ensures
            r@ == self.spec_message(),
    {
        let plus = String::from_str("plus");
        let is_plus = match &self.plan_type {
            Some(p) => *p == plus,
            None => false,
        };
        let mut s: String;
        if is_plus {
            s = String::from_str(
                "已达到使用上限。升级到 Pro(https://openai.com/chatgpt/pricing)或稍后重试",
            );
            match self.resets_in_seconds {
                Some(secs) => {
                    s.append("，大约 ");
                    s.append(format_reset_duration(secs).as_str());
                    s.append(" 后重置。");
                },
                None => {
                    s.append("。");
                },
            }
        } else {
            s = String::from_str("已达到使用上限。");
            match self.resets_in_seconds {
                Some(secs) => {
                    s.append("请在约 ");
                    s.append(format_reset_duration(secs).as_str());
                    s.append(" 后重试。");
                },
                None => {
                    s.append("请稍后重试。");
                },
            }
        }
        proof {
            assert(s@ =~= self.spec_message());
        }
        s
    }
}

impl EnvVarError {
    /// The user-facing message: the variable's name, then the instructions
    /// for obtaining a value, when present.
    pub open spec fn spec_message(&self) -> Seq<char> {
        "缺少环境变量:`"@ + self.var@ + "`。"@ + (match self.instructions {
            Some(ref i) => " "@ + i@,
            None => Seq::<char>::empty(),
        })
    }

    /// Renders the user-facing message.
    pub fn message(&self) -> (r: String)
        ensures
            r@ == self.spec_message(),
    {
        let mut s = String::from_str("缺少环境变量:`");
        s.append(self.var.as_str());
        s.append("`。");
        match &self.instructions {
            Some(i) => {
                s.append(" ");
                s.append(i.as_str());
            },
            None => {},
        }
        proof {
            assert(s@ =~= self.spec_message());
        }
        s
    }
}

impl SandboxErr {
    /// The message for each execution fault. A denial spells out the exit
    /// code and both captured streams; the others are short fixed phrases.
    pub open spec fn spec_message(&self) -> Seq<char> {
        match *self {
            SandboxErr::Denied(code, ref stdout, ref stderr) => "沙箱拒绝执行,退出码:"@
                + spec_dec_signed(code as int) + ",stdout:"@ + stdout@ + ",stderr:"@ + stderr@,
            SandboxErr::SeccompInstall(_) => "seccomp 安装错误"@,
            SandboxErr::SeccompBackend(_) => "seccomp 后端错误"@,
            SandboxErr::Timeout => "命令超时"@,
            SandboxErr::Signal(_) => "命令被信号终止"@,
            SandboxErr::LandlockRestrict => "Landlock 未能完全执行所有沙箱规则"@,
        }
    }

    /// Renders the message.
    pub fn message(&self) -> (r: String)
        ensures
            r@ == self.spec_message(),
    {
        match self {
            SandboxErr::Denied(code, stdout, stderr) => {
                let mut s = String::from_str("沙箱拒绝执行,退出码:");
                s.append(i32_dec_string(*code).as_str());
                s.append(",stdout:");
                s.append(stdout.as_str());
                s.append(",stderr:");
                s.append(stderr.as_str());
                proof {
                    assert(s@ =~= self.spec_message());
                }
                s
            },
            SandboxErr::SeccompInstall(_) => String::from_str("seccomp 安装错误"),
            SandboxErr::SeccompBackend(_) => String::from_str("seccomp 后端错误"),
            SandboxErr::Timeout => String::from_str("命令超时"),
            SandboxErr::Signal(_) => String::from_str("命令被信号终止"),
            SandboxErr::LandlockRestrict => String::from_str(
                "Landlock 未能完全执行所有沙箱规则",
            ),
        }
    }
}

impl CodexErr {
    /// The message for each session fault: structured data rendered in
    /// place, with no stack-trace-like internals.
    pub open spec fn spec_message(&self) -> Seq<char> {
        match *self {
            CodexErr::Stream(ref m, _) => "流在完成前断开:"@ + m@,
            CodexErr::ConversationNotFound(ref id) => "不存在 ID 为 "@ + id@ + " 的会话"@,
            CodexErr::SessionConfiguredNotFirstEvent => "会话配置事件不是流中的第一个事件"@,
            CodexErr::Timeout => "等待子进程退出超时"@,
            CodexErr::Spawn => "进程创建失败:未捕获子进程 stdout/stderr"@,
            CodexErr::Interrupted => "已中断(Ctrl-C)"@,
            CodexErr::UnexpectedStatus(code, ref body) => "意外的状态 "@ + spec_dec(
                code as nat,
            ) + ":"@ + body@,
            CodexErr::UsageLimitReached(ref e) => e.spec_message(),
            CodexErr::UsageNotIncluded => "如需在 ChatGPT 付费计划中使用 Codex,请升级到 Plus(https://openai.com/chatgpt/pricing)。"@,
            CodexErr::InternalServerError => "当前请求量较高,可能会出现临时错误。"@,
            CodexErr::RetryLimit(code) => "重试次数已用尽,最后状态:"@ + spec_dec(code as nat),
            CodexErr::InternalAgentDied => "内部错误；代理循环意外退出"@,
            CodexErr::Sandbox(ref e) => "沙箱错误:"@ + e.spec_message(),
            CodexErr::LandlockSandboxExecutableNotProvided => "需要 codex-linux-sandbox 但未提供"@,
            CodexErr::Io(ref m) => m@,
            CodexErr::Reqwest(ref m) => m@,
            CodexErr::Json(ref m) => m@,
            CodexErr::LandlockRuleset(ref m) => m@,
            CodexErr::LandlockPathFd(ref m) => m@,
            CodexErr::TokioJoin(ref m) => m@,
            CodexErr::EnvVar(ref e) => e.spec_message(),
        }
    }

    /// Renders the message.
    pub fn message(&self) -> (r: String)
        ensures
            r@ == self.spec_message(),
    {
        match self {
            CodexErr::Stream(m, _) => {
                let mut s = String::from_str("流在完成前断开:");
                s.append(m.as_str());
                s
            },
            CodexErr::ConversationNotFound(id) => {
                let mut s = String::from_str("不存在 ID 为 ");
                s.append(id.as_str());
                s.append(" 的会话");
                proof {
                    assert(s@ =~= self.spec_message());
                }
                s
            },
            CodexErr::SessionConfiguredNotFirstEvent => String::from_str(
                "会话配置事件不是流中的第一个事件",
            ),
            CodexErr::Timeout => String::from_str("等待子进程退出超时"),
            CodexErr::Spawn => String::from_str("进程创建失败:未捕获子进程 stdout/stderr"),
            CodexErr::Interrupted => String::from_str("已中断(Ctrl-C)"),
            CodexErr::UnexpectedStatus(code, body) => {
                let mut s = String::from_str("意外的状态 ");
                s.append(u64_dec_string(*code as u64).as_str());
                s.append(":");
                s.append(body.as_str());
                proof {
                    assert(s@ =~= self.spec_message());
                }
                s
            },
            CodexErr::UsageLimitReached(e) => e.message(),
            CodexErr::UsageNotIncluded => String::from_str(
                "如需在 ChatGPT 付费计划中使用 Codex,请升级到 Plus(https://openai.com/chatgpt/pricing)。",
            ),
            CodexErr::InternalServerError => String::from_str(
                "当前请求量较高,可能会出现临时错误。",
            ),
            CodexErr::RetryLimit(code) => {
                let mut s = String::from_str("重试次数已用尽,最后状态:");
                s.append(u64_dec_string(*code as u64).as_str());
                s
            },
            CodexErr::InternalAgentDied => String::from_str("内部错误；代理循环意外退出"),
            CodexErr::Sandbox(e) => {
                let mut s = String::from_str("沙箱错误:");
                s.append(e.message().as_str());
                s
            },
            CodexErr::LandlockSandboxExecutableNotProvided => String::from_str(
                "需要 codex-linux-sandbox 但未提供",
            ),
            CodexErr::Io(m) => m.clone(),
            CodexErr::Reqwest(m) => m.clone(),
            CodexErr::Json(m) => m.clone(),
            CodexErr::LandlockRuleset(m) => m.clone(),
            CodexErr::LandlockPathFd(m) => m.clone(),
            CodexErr::TokioJoin(m) => m.clone(),
            CodexErr::EnvVar(e) => e.message(),
        }
    }
}

/// The message the UI shows for a fault: a sandbox denial's captured stderr
/// verbatim, a plain fixed phrase for a sandbox timeout, and the fault's own
/// message otherwise.
pub open spec fn spec_error_message_ui(e: &CodexErr) -> Seq<char> {
    match *e {
        CodexErr::Sandbox(SandboxErr::Denied(_, _, ref stderr)) => stderr@,
        CodexErr::Sandbox(SandboxErr::Timeout) => "错误:命令超时"@,
        _ => e.spec_message(),
    }
}

/// Renders the message the UI shows for `e`.
pub fn get_error_message_ui(e: &CodexErr) -> (r: String)
    ensures
        r@ == spec_error_message_ui(e),
{
    match e {
        CodexErr::Sandbox(SandboxErr::Denied(_, _, stderr)) => stderr.clone(),
        CodexErr::Sandbox(SandboxErr::Timeout) => String::from_str("错误:命令超时"),
        _ => e.message(),
    }
}

} // verus!
