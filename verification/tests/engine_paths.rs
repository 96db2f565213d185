use ossify::engines::{executable_name, managed_tool_path, ManagedBinDirs, ManagedTool};
use ossify::generator::{FileAction, GeneratedFile, InitReport, ScaffoldMode};
use ossify::intel::{ChunkKind, ContextRef};
use ossify::project::{ProjectContext, ProjectKind};
use ossify::ui::{format_context_ref, map_files};

fn dirs() -> ManagedBinDirs {
    ManagedBinDirs {
        managed: String::from("/tools/bin"),
        node: String::from("/tools/node/node_modules/.bin"),
        python: String::from("/tools/python/bin/"),
    }
}

#[test]
fn managed_tools_live_by_install_kind() {
    assert_eq!(managed_tool_path(ManagedTool::Actionlint, &dirs(), false), "/tools/bin/actionlint");
    assert_eq!(managed_tool_path(ManagedTool::CargoDist, &dirs(), false), "/tools/bin/dist");
    assert_eq!(
        managed_tool_path(ManagedTool::AuditCi, &dirs(), true),
        "/tools/node/node_modules/.bin/audit-ci.cmd"
    );
    assert_eq!(managed_tool_path(ManagedTool::PipAudit, &dirs(), false), "/tools/python/bin/pip-audit");
    assert_eq!(executable_name("cargo-deny", true), "cargo-deny.exe");
}

#[test]
fn files_and_context_for_the_interface() {
    let report = InitReport {
        target: String::from("/repo"),
        mode: ScaffoldMode::Init,
        project: ProjectContext { kind: ProjectKind::Go, name: String::from("demo"), manifest_path: None },
        files: vec![
            GeneratedFile { path: String::from("/repo/README.md"), action: FileAction::Created, reason: None },
            GeneratedFile {
                path: String::from("/repo/.github/FUNDING.yml"),
                action: FileAction::Skipped,
                reason: Some(String::from("needs --funding")),
            },
        ],
    };
    let files = map_files(&report);
    assert_eq!(files.len(), 2);
    assert_eq!(files[1].path, "/repo/.github/FUNDING.yml");
    assert_eq!(files[1].reason.as_deref(), Some("needs --funding"));

    let context = |start: Option<u32>, end: Option<u32>| ContextRef {
        path: String::from("src/lib.rs"),
        chunk_kind: ChunkKind::Manifest,
        byte_start: None,
        byte_end: None,
        line_start: start,
        line_end: end,
        approximate: false,
        excerpt: None,
    };
    assert_eq!(format_context_ref(&context(Some(4), Some(4))), "src/lib.rs:4");
    assert_eq!(format_context_ref(&context(Some(4), Some(9))), "src/lib.rs:4-9");
    assert_eq!(format_context_ref(&context(Some(4), None)), "src/lib.rs");
}
