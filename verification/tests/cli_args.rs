use ossify::cli::{
    license_kind_of, prepare_default_command, AuditArgs, CliError, ColorChoice, Command, FixArgs,
    LicenseArg, OutputFormat, ParsedArgs, ScaffoldArgs,
};
use ossify::generator::LicenseKind;

fn strings(values: &[&str]) -> Vec<String> {
    values.iter().map(|v| v.to_string()).collect()
}

fn scaffold() -> ScaffoldArgs {
    ScaffoldArgs { path: String::from("."), overwrite: false, license: None, owner: None, funding: None, config: None }
}

#[test]
fn bare_path_becomes_an_audit() {
    assert_eq!(prepare_default_command(strings(&["ossify", "some/repo"])), strings(&["ossify", "audit", "some/repo"]));
    assert_eq!(
        prepare_default_command(strings(&["ossify", "--json", "repo", "--strict"])),
        strings(&["ossify", "--json", "audit", "repo", "--strict"])
    );
    assert_eq!(prepare_default_command(strings(&["ossify", "fix", "."])), strings(&["ossify", "fix", "."]));
    assert_eq!(prepare_default_command(strings(&["ossify", "--json"])), strings(&["ossify", "--json"]));
    assert_eq!(prepare_default_command(strings(&["ossify"])), strings(&["ossify"]));
}

#[test]
fn interactive_conflicts_with_json() {
    let args = ParsedArgs {
        json: true,
        color: false,
        no_color: false,
        command: Some(Command::Audit(AuditArgs { path: String::from("."), config: None, strict: false, interactive: true })),
    };
    assert!(matches!(args.validate(), Err(CliError::InteractiveWithJson)));
    let fix = ParsedArgs {
        json: true,
        color: false,
        no_color: false,
        command: Some(Command::Fix(FixArgs { scaffold: scaffold(), plan: true, interactive: false })),
    };
    assert!(fix.validate().is_ok());
}

#[test]
fn defaults_and_choices() {
    let args = ParsedArgs { json: false, color: false, no_color: true, command: None };
    assert_eq!(args.output_format(), OutputFormat::Human);
    assert_eq!(args.color_choice(), ColorChoice::Never);
    match args.command_or_default() {
        Command::Audit(a) => {
            assert_eq!(a.path, ".");
            assert!(!a.strict && !a.interactive && a.config.is_none());
        },
        _ => panic!("expected the default audit"),
    }
    assert!(ColorChoice::Auto.enabled_when(false));
    assert!(!ColorChoice::Auto.enabled_when(true));
    assert!(ColorChoice::Always.enabled_when(true));
    assert_eq!(license_kind_of(LicenseArg::Apache20), LicenseKind::Apache2);
}
