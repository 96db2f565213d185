//! Managed external engines: their names, how they are installed and how a
//! failure to run one is reported.
use vstd::prelude::*;
use crate::text::{chars_of, concat_str, str_eq, string_from_chars};

verus! {

/// How a managed engine run ended.
#[derive(Debug, Clone, Copy, PartialEq, Eq, Structural)]
pub enum ManagedEngineStatus {
    Managed,
    HeuristicFallback,
    BootstrapFailed,
    RuntimeMissing,
    ExecutionFailed,
    ParseFailed,
}

pub open spec fn engine_status_label(s: ManagedEngineStatus) -> Seq<char> {
    match s {
        ManagedEngineStatus::Managed => "managed"@,
        ManagedEngineStatus::HeuristicFallback => "heuristic-fallback"@,
        ManagedEngineStatus::BootstrapFailed => "bootstrap-failed"@,
        ManagedEngineStatus::RuntimeMissing => "runtime-missing"@,
        ManagedEngineStatus::ExecutionFailed => "execution-failed"@,
        ManagedEngineStatus::ParseFailed => "parse-failed"@,
    }
}

impl ManagedEngineStatus {
    pub fn label(self) -> (r: &'static str)
        ensures
            r@ == engine_status_label(self),
    {
        match self {
            ManagedEngineStatus::Managed => "managed",
            ManagedEngineStatus::HeuristicFallback => "heuristic-fallback",
            ManagedEngineStatus::BootstrapFailed => "bootstrap-failed",
            ManagedEngineStatus::RuntimeMissing => "runtime-missing",
            ManagedEngineStatus::ExecutionFailed => "execution-failed",
            ManagedEngineStatus::ParseFailed => "parse-failed",
        }
    }
}

/// The external tools the doctor commands can drive.
#[derive(Debug, Clone, Copy, PartialEq, Eq, Structural)]
pub enum ManagedTool {
    Actionlint,
    CargoDeny,
    AuditCi,
    PipAudit,
    ReleasePlz,
    GitCliff,
    CargoDist,
    ReleasePlease,
}

/// Where a managed tool is installed from.
#[derive(Debug, Clone, Copy, PartialEq, Eq, Structural)]
pub enum ManagedInstallKind {
    GitHubRelease,
    Cargo,
    Node,
    Python,
}

pub open spec fn tool_display_name(t: ManagedTool) -> Seq<char> {
    match t {
        ManagedTool::Actionlint => "actionlint"@,
        ManagedTool::CargoDeny => "cargo-deny"@,
        ManagedTool::AuditCi => "audit-ci"@,
        ManagedTool::PipAudit => "pip-audit"@,
        ManagedTool::ReleasePlz => "release-plz"@,
        ManagedTool::GitCliff => "git-cliff"@,
        ManagedTool::CargoDist => "cargo-dist"@,
        ManagedTool::ReleasePlease => "release-please"@,
    }
}

pub open spec fn tool_command_name(t: ManagedTool) -> Seq<char> {
    match t {
        ManagedTool::CargoDist => "dist"@,
        _ => tool_display_name(t),
    }
}

pub open spec fn tool_install_kind(t: ManagedTool) -> ManagedInstallKind {
    match t {
        ManagedTool::Actionlint => ManagedInstallKind::GitHubRelease,
        ManagedTool::CargoDeny | ManagedTool::ReleasePlz | ManagedTool::GitCliff
        | ManagedTool::CargoDist => ManagedInstallKind::Cargo,
        ManagedTool::AuditCi | ManagedTool::ReleasePlease => ManagedInstallKind::Node,
        ManagedTool::PipAudit => ManagedInstallKind::Python,
    }
}

/// `-` becomes `_`, ASCII letters become upper case.
pub open spec fn env_char(c: char) -> char {
    if c == '-' {
        '_'
    } else if 'a' <= c && c <= 'z' {
        ((c as u32) - 32) as char
    } else {
        c
    }
}

/// The environment variable that can point at a tool's binary.
pub open spec fn tool_env_name(t: ManagedTool) -> Seq<char> {
    "OSSIFY_"@ + tool_display_name(t).map_values(|c: char| env_char(c))
}

impl ManagedTool {
    pub fn display_name(self) -> (r: &'static str)
        ensures
            r@ == tool_display_name(self),
    {
        match self {
            ManagedTool::Actionlint => "actionlint",
            ManagedTool::CargoDeny => "cargo-deny",
            ManagedTool::AuditCi => "audit-ci",
            ManagedTool::PipAudit => "pip-audit",
            ManagedTool::ReleasePlz => "release-plz",
            ManagedTool::GitCliff => "git-cliff",
            ManagedTool::CargoDist => "cargo-dist",
            ManagedTool::ReleasePlease => "release-please",
        }
    }

    pub fn command_name(self) -> (r: &'static str)
        ensures
            r@ == tool_command_name(self),
    {
        match self {
            ManagedTool::CargoDist => "dist",
            _ => self.display_name(),
        }
    }

    pub fn env_name(self) -> (r: String)
        ensures
            r@ == tool_env_name(self),
    {
        let name = chars_of(self.display_name());
        let mut out: Vec<char> = Vec::new();
        let mut i: usize = 0;
        while i < name.len()
            invariant
                i <= name.len(),
                name@ == tool_display_name(self),
                out@ == name@.take(i as int).map_values(|c: char| env_char(c)),
            decreases name.len() - i,
        {
            let c = name[i];
            let e = if c == '-' {
                '_'
            } else if 'a' <= c && c <= 'z' {
                ((c as u8) - 32) as char
            } else {
                c
            };
            out.push(e);
            assert(name@.take(i + 1).map_values(|c: char| env_char(c)) =~= name@.take(
                i as int,
            ).map_values(|c: char| env_char(c)).push(env_char(c)));
            i += 1;
        }
        assert(name@.take(name.len() as int) =~= name@);
        concat_str("OSSIFY_", string_from_chars(&out).as_str())
    }

    pub fn install_kind(self) -> (r: ManagedInstallKind)
        ensures
            r == tool_install_kind(self),
    {
        match self {
            ManagedTool::Actionlint => ManagedInstallKind::GitHubRelease,
            ManagedTool::CargoDeny | ManagedTool::ReleasePlz | ManagedTool::GitCliff
            | ManagedTool::CargoDist => ManagedInstallKind::Cargo,
            ManagedTool::AuditCi | ManagedTool::ReleasePlease => ManagedInstallKind::Node,
            ManagedTool::PipAudit => ManagedInstallKind::Python,
        }
    }

    /// The package that provides the tool; it is the tool's display name.
    pub fn install_package(self) -> (r: &'static str)
        ensures
            r@ == tool_display_name(self),
    {
        match self {
            ManagedTool::CargoDeny => "cargo-deny",
            ManagedTool::AuditCi => "audit-ci",
            ManagedTool::PipAudit => "pip-audit",
            ManagedTool::ReleasePlz => "release-plz",
            ManagedTool::GitCliff => "git-cliff",
            ManagedTool::CargoDist => "cargo-dist",
            ManagedTool::ReleasePlease => "release-please",
            ManagedTool::Actionlint => "actionlint",
        }
    }
}

/// Why a managed engine could not be used.
#[derive(Debug, Clone)]
pub struct ManagedEngineError {
    pub tool: ManagedTool,
    pub status: ManagedEngineStatus,
    pub message: String,
}

/// File name of an executable: on Windows the Node shims end in `.cmd` and
/// other programs in `.exe`; elsewhere the name is kept.
pub open spec fn executable_name_spec(name: Seq<char>, windows: bool) -> Seq<char> {
    if !windows {
        name
    } else if name == "audit-ci"@ || name == "release-please"@ {
        name + ".cmd"@
    } else {
        name + ".exe"@
    }
}

pub fn executable_name(name: &str, windows: bool) -> (r: String)
    ensures
        r@ == executable_name_spec(name@, windows),
{
    if !windows {
        name.to_owned()
    } else if str_eq(name, "audit-ci") || str_eq(name, "release-please") {
        concat_str(name, ".cmd")
    } else {
        concat_str(name, ".exe")
    }
}

/// The directories where managed tools are installed: release and Cargo
/// tools, Node tools, Python tools.
#[derive(Debug, Clone)]
pub struct ManagedBinDirs {
    pub managed: String,
    pub node: String,
    pub python: String,
}

/// Where a managed tool's executable lives.
pub open spec fn managed_tool_path_spec(tool: ManagedTool, dirs: ManagedBinDirs, windows: bool) -> Seq<
    char,
> {
    let exe = executable_name_spec(tool_command_name(tool), windows);
    match tool_install_kind(tool) {
        ManagedInstallKind::GitHubRelease | ManagedInstallKind::Cargo => crate::project::join_path_spec(
            dirs.managed@,
            exe,
        ),
        ManagedInstallKind::Node => crate::project::join_path_spec(dirs.node@, exe),
        ManagedInstallKind::Python => crate::project::join_path_spec(dirs.python@, exe),
    }
}

/// The path of a managed tool's executable, by how the tool is installed.
pub fn managed_tool_path(tool: ManagedTool, dirs: &ManagedBinDirs, windows: bool) -> (r: String)
    ensures
        r@ == managed_tool_path_spec(tool, *dirs, windows),
{
    let exe = executable_name(tool.command_name(), windows);
    match tool.install_kind() {
        ManagedInstallKind::GitHubRelease | ManagedInstallKind::Cargo => crate::project::join_path(
            dirs.managed.as_str(),
            exe.as_str(),
        ),
        ManagedInstallKind::Node => crate::project::join_path(dirs.node.as_str(), exe.as_str()),
        ManagedInstallKind::Python => crate::project::join_path(dirs.python.as_str(), exe.as_str()),
    }
}

} // verus!
