//! Commands that can be invoked by starting a message with a leading slash:
//! their stable command strings, popup descriptions, and whether each may
//! run while a task is in progress.

use vstd::prelude::*;

verus! {

/// Commands that can be invoked by starting a message with a leading slash.
///
/// The variant order is the presentation order in the popup, so more
/// frequently used commands are listed first — do not alphabetize. The
/// approval-test command is only ever offered in debug builds, but stays a
/// normal variant so the set of commands is uniform across builds.
#[derive(Debug, Clone, Copy, PartialEq, Eq, Hash, Structural)]
pub enum SlashCommand {
    Model,
    Approvals,
    New,
    Init,
    Compact,
    Diff,
    Mention,
    Status,
    Mcp,
    Logout,
    Quit,
    TestApproval,
}

/// The command string of each command, without the leading slash: the
/// variant's name in kebab case.
pub open spec fn spec_command_name(c: SlashCommand) -> Seq<char> {
    match c {
        SlashCommand::Model => "model"@,
        SlashCommand::Approvals => "approvals"@,
        SlashCommand::New => "new"@,
        SlashCommand::Init => "init"@,
        SlashCommand::Compact => "compact"@,
        SlashCommand::Diff => "diff"@,
        SlashCommand::Mention => "mention"@,
        SlashCommand::Status => "status"@,
        SlashCommand::Mcp => "mcp"@,
        SlashCommand::Logout => "logout"@,
        SlashCommand::Quit => "quit"@,
        SlashCommand::TestApproval => "test-approval"@,
    }
}

/// The description of each command, as shown in the popup.
pub open spec fn spec_description(c: SlashCommand) -> Seq<char> {
    match c {
        SlashCommand::New => "关闭当前会话,新建会话"@,
        SlashCommand::Init => "创建一个包含 Codex 指令的 AGENTS.md 文件"@,
        SlashCommand::Compact => "压缩上下文"@,
        SlashCommand::Quit => "退出 Codex"@,
        SlashCommand::Diff => "显示 git diff (包括未跟踪文件) "@,
        SlashCommand::Mention => "引用一个文件"@,
        SlashCommand::Status => "显示当前会话配置和 Token 使用情况"@,
        SlashCommand::Model => "选择使用的模型和推理强度"@,
        SlashCommand::Approvals => "选择 Codex 可以在无需批准情况下执行的操作"@,
        SlashCommand::Mcp => "列出已配置的 MCP 工具"@,
        SlashCommand::Logout => "退出 Codex 登录"@,
        SlashCommand::TestApproval => "（仅在调试模式下）测试审批请求"@,
    }
}

/// Whether each command can run while a task is in progress.
pub open spec fn spec_available_during_task(c: SlashCommand) -> bool {
    match c {
        SlashCommand::New => false,
        SlashCommand::Init => false,
        SlashCommand::Compact => false,
        SlashCommand::Model => false,
        SlashCommand::Approvals => false,
        SlashCommand::Logout => false,
        SlashCommand::Diff => true,
        SlashCommand::Mention => true,
        SlashCommand::Status => true,
        SlashCommand::Mcp => true,
        SlashCommand::Quit => true,
        SlashCommand::TestApproval => true,
    }
}

/// All commands, in presentation order.
pub open spec fn spec_all_commands() -> Seq<SlashCommand> {
    seq![
        SlashCommand::Model,
        SlashCommand::Approvals,
        SlashCommand::New,
        SlashCommand::Init,
        SlashCommand::Compact,
        SlashCommand::Diff,
        SlashCommand::Mention,
        SlashCommand::Status,
        SlashCommand::Mcp,
        SlashCommand::Logout,
        SlashCommand::Quit,
        SlashCommand::TestApproval,
    ]
}

impl SlashCommand {
    /// User-visible description shown in the popup.
    pub fn description(self) -> (r: &'static str)
        ensures
            r@ == spec_description(self),
    {
        match self {
            SlashCommand::New => "关闭当前会话,新建会话",
            SlashCommand::Init => "创建一个包含 Codex 指令的 AGENTS.md 文件",
            SlashCommand::Compact => "压缩上下文",
            SlashCommand::Quit => "退出 Codex",
            SlashCommand::Diff => "显示 git diff (包括未跟踪文件) ",
            SlashCommand::Mention => "引用一个文件",
            SlashCommand::Status => "显示当前会话配置和 Token 使用情况",
            SlashCommand::Model => "选择使用的模型和推理强度",
            SlashCommand::Approvals => "选择 Codex 可以在无需批准情况下执行的操作",
            SlashCommand::Mcp => "列出已配置的 MCP 工具",
            SlashCommand::Logout => "退出 Codex 登录",
            SlashCommand::TestApproval => "（仅在调试模式下）测试审批请求",
        }
    }

    /// Command string without the leading '/'.
    pub fn command(self) -> (r: &'static str)
        ensures
            r@ == spec_command_name(self),
    {
        match self {
            SlashCommand::Model => "model",
            SlashCommand::Approvals => "approvals",
            SlashCommand::New => "new",
            SlashCommand::Init => "init",
            SlashCommand::Compact => "compact",
            SlashCommand::Diff => "diff",
            SlashCommand::Mention => "mention",
            SlashCommand::Status => "status",
            SlashCommand::Mcp => "mcp",
            SlashCommand::Logout => "logout",
            SlashCommand::Quit => "quit",
            SlashCommand::TestApproval => "test-approval",
        }
    }

    /// Whether this command can be run while a task is in progress.
    pub fn available_during_task(self) -> (r: bool)
        ensures
            r == spec_available_during_task(self),
    {
        match self {
            SlashCommand::New
            | SlashCommand::Init
            | SlashCommand::Compact
            | SlashCommand::Model
            | SlashCommand::Approvals
            | SlashCommand::Logout => false,
            SlashCommand::Diff
            | SlashCommand::Mention
            | SlashCommand::Status
            | SlashCommand::Mcp
            | SlashCommand::Quit => true,
            SlashCommand::TestApproval => true,
        }
    }
}

/// Return all built-in commands in a Vec paired with their command string,
/// in presentation order.
pub fn built_in_slash_commands() -> (r: Vec<(&'static str, SlashCommand)>)
    ensures
        r@.len() == spec_all_commands().len(),
        forall|i: int|
            0 <= i < r@.len() ==> (#[trigger] r@[i]).1 == spec_all_commands()[i] && r@[i].0@
                == spec_command_name(r@[i].1),
{
    let mut v: Vec<(&'static str, SlashCommand)> = Vec::new();
    v.push((SlashCommand::Model.command(), SlashCommand::Model));
    v.push((SlashCommand::Approvals.command(), SlashCommand::Approvals));
    v.push((SlashCommand::New.command(), SlashCommand::New));
    v.push((SlashCommand::Init.command(), SlashCommand::Init));
    v.push((SlashCommand::Compact.command(), SlashCommand::Compact));
    v.push((SlashCommand::Diff.command(), SlashCommand::Diff));
    v.push((SlashCommand::Mention.command(), SlashCommand::Mention));
    v.push((SlashCommand::Status.command(), SlashCommand::Status));
    v.push((SlashCommand::Mcp.command(), SlashCommand::Mcp));
    v.push((SlashCommand::Logout.command(), SlashCommand::Logout));
    v.push((SlashCommand::Quit.command(), SlashCommand::Quit));
    v.push((SlashCommand::TestApproval.command(), SlashCommand::TestApproval));
    proof {
        assert forall|i: int| 0 <= i < v@.len() implies (#[trigger] v@[i]).1
            == spec_all_commands()[i] && v@[i].0@ == spec_command_name(v@[i].1) by {
            if i == 0 {
            } else if i == 1 {
            } else if i == 2 {
            } else if i == 3 {
            } else if i == 4 {
            } else if i == 5 {
            } else if i == 6 {
            } else if i == 7 {
            } else if i == 8 {
            } else if i == 9 {
            } else if i == 10 {
            } else {
            }
        }
    }
    v
}

} // verus!
