use codex_policy::error::CodexErr;
use codex_policy::error::EnvVarError;
use codex_policy::error::SandboxErr;
use codex_policy::error::UsageLimitReachedError;
use codex_policy::error::get_error_message_ui;

#[test]
fn usage_limit_reached_error_formats_plus_plan() {
    let err = UsageLimitReachedError {
        plan_type: Some("plus".to_string()),
        resets_in_seconds: None,
    };
    assert_eq!(
        err.message(),
        "已达到使用上限。升级到 Pro(https://openai.com/chatgpt/pricing)或稍后重试。"
    );
}

#[test]
fn usage_limit_reached_error_formats_default_when_none() {
    let err = UsageLimitReachedError {
        plan_type: None,
        resets_in_seconds: None,
    };
    assert_eq!(err.message(), "已达到使用上限。请稍后重试。");
}

#[test]
fn usage_limit_reached_error_formats_default_for_other_plans() {
    let err = UsageLimitReachedError {
        plan_type: Some("pro".to_string()),
        resets_in_seconds: None,
    };
    assert_eq!(err.message(), "已达到使用上限。请稍后重试。");
}

#[test]
fn usage_limit_reached_includes_minutes_when_available() {
    let err = UsageLimitReachedError {
        plan_type: None,
        resets_in_seconds: Some(5 * 60),
    };
    assert_eq!(err.message(), "已达到使用上限。请在约 5 分钟 后重试。");
}

#[test]
fn usage_limit_reached_includes_hours_and_minutes() {
    let err = UsageLimitReachedError {
        plan_type: Some("plus".to_string()),
        resets_in_seconds: Some(3 * 3600 + 32 * 60),
    };
    assert_eq!(
        err.message(),
        "已达到使用上限。升级到 Pro(https://openai.com/chatgpt/pricing)或稍后重试，大约 3 小时 32 分钟 后重置。"
    );
}

#[test]
fn usage_limit_reached_includes_days_hours_minutes() {
    let err = UsageLimitReachedError {
        plan_type: None,
        resets_in_seconds: Some(2 * 86_400 + 3 * 3600 + 5 * 60),
    };
    assert_eq!(
        err.message(),
        "已达到使用上限。请在约 2 天 3 小时 5 分钟 后重试。"
    );
}

#[test]
fn usage_limit_reached_less_than_minute() {
    let err = UsageLimitReachedError {
        plan_type: None,
        resets_in_seconds: Some(30),
    };
    assert_eq!(err.message(), "已达到使用上限。请在约 不到 1 分钟 后重试。");
}

#[test]
fn denied_fault_shows_captured_stderr_verbatim() {
    let e = CodexErr::Sandbox(SandboxErr::Denied(126, "".to_string(), "blocked".to_string()));
    assert_eq!(get_error_message_ui(&e), "blocked");
}

#[test]
fn sandbox_timeout_shows_plain_phrase() {
    let e = CodexErr::Sandbox(SandboxErr::Timeout);
    assert_eq!(get_error_message_ui(&e), "错误:命令超时");
}

#[test]
fn other_faults_show_their_own_message() {
    assert_eq!(
        get_error_message_ui(&CodexErr::Interrupted),
        "已中断(Ctrl-C)"
    );
    assert_eq!(
        get_error_message_ui(&CodexErr::Timeout),
        "等待子进程退出超时"
    );
    assert_eq!(
        get_error_message_ui(&CodexErr::Sandbox(SandboxErr::LandlockRestrict)),
        "沙箱错误:Landlock 未能完全执行所有沙箱规则"
    );
}

#[test]
fn denied_message_spells_out_code_and_streams() {
    let e = SandboxErr::Denied(126, "out".to_string(), "err".to_string());
    assert_eq!(e.message(), "沙箱拒绝执行,退出码:126,stdout:out,stderr:err");
}

#[test]
fn stream_fault_message_carries_transport_report() {
    let e = CodexErr::Stream("connection reset".to_string(), Some(1500));
    assert_eq!(e.message(), "流在完成前断开:connection reset");
}

#[test]
fn unexpected_status_message_carries_code_and_body() {
    let e = CodexErr::UnexpectedStatus(503, "overloaded".to_string());
    assert_eq!(e.message(), "意外的状态 503:overloaded");
    assert_eq!(
        CodexErr::RetryLimit(429).message(),
        "重试次数已用尽,最后状态:429"
    );
}

#[test]
fn conversation_not_found_message_carries_id() {
    let e = CodexErr::ConversationNotFound("123e4567-e89b-12d3-a456-426614174000".to_string());
    assert_eq!(
        e.message(),
        "不存在 ID 为 123e4567-e89b-12d3-a456-426614174000 的会话"
    );
}

#[test]
fn env_var_error_message_with_and_without_instructions() {
    let bare = EnvVarError {
        var: "API_KEY".to_string(),
        instructions: None,
    };
    assert_eq!(bare.message(), "缺少环境变量:`API_KEY`。");
    let helped = EnvVarError {
        var: "API_KEY".to_string(),
        instructions: Some("请在控制台创建一个密钥".to_string()),
    };
    assert_eq!(
        helped.message(),
        "缺少环境变量:`API_KEY`。 请在控制台创建一个密钥"
    );
}
