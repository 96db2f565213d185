//! The command line as values: the commands and their options, the default
//! command, the output format and colour choice, and the checks the parser
//! adds to the grammar.
use vstd::prelude::*;
use crate::generator::LicenseKind;
use crate::text::{starts_with, str_eq, str_starts_with, views};

verus! {

#[derive(Debug, Clone)]
pub struct DocsDoctorArgs {
    pub path: String,
}

#[derive(Debug, Clone)]
pub struct WorkflowDoctorArgs {
    pub path: String,
}

#[derive(Debug, Clone)]
pub enum DoctorCommand {
    Docs(DocsDoctorArgs),
    Workflow(WorkflowDoctorArgs),
}

#[derive(Debug, Clone)]
pub struct DoctorArgs {
    pub command: DoctorCommand,
}

#[derive(Debug, Clone)]
pub struct AuditArgs {
    pub path: String,
    pub config: Option<String>,
    pub strict: bool,
    pub interactive: bool,
}

/// The license names the command line accepts.
#[derive(Debug, Clone, Copy, PartialEq, Eq, Structural)]
pub enum LicenseArg {
    Mit,
    Apache20,
}

/// The license a command-line license name stands for.
pub fn license_kind_of(value: LicenseArg) -> (r: LicenseKind)
    ensures
        r == (match value {
            LicenseArg::Mit => LicenseKind::Mit,
            LicenseArg::Apache20 => LicenseKind::Apache2,
        }),
{
    match value {
        LicenseArg::Mit => LicenseKind::Mit,
        LicenseArg::Apache20 => LicenseKind::Apache2,
    }
}

#[derive(Debug, Clone)]
pub struct ScaffoldArgs {
    pub path: String,
    pub overwrite: bool,
    pub license: Option<LicenseArg>,
    pub owner: Option<String>,
    pub funding: Option<String>,
    pub config: Option<String>,
}

#[derive(Debug, Clone)]
pub struct FixArgs {
    pub scaffold: ScaffoldArgs,
    pub plan: bool,
    pub interactive: bool,
}

#[derive(Debug, Clone)]
pub struct PromptArgs {
    pub path: String,
    pub config: Option<String>,
    pub rule: Option<String>,
    pub count: usize,
}

#[derive(Debug, Clone)]
pub enum Command {
    Audit(AuditArgs),
    Doctor(DoctorArgs),
    Init(ScaffoldArgs),
    Fix(FixArgs),
    Prompt(PromptArgs),
    Version,
}

/// The parsed command line.
#[derive(Debug, Clone)]
pub struct ParsedArgs {
    pub json: bool,
    pub color: bool,
    pub no_color: bool,
    pub command: Option<Command>,
}

#[derive(Debug, Clone, Copy, PartialEq, Eq, Structural)]
pub enum OutputFormat {
    Human,
    Json,
}

#[derive(Debug, Clone, Copy, PartialEq, Eq, Structural)]
pub enum ColorChoice {
    Auto,
    Always,
    Never,
}

impl ColorChoice {
    /// Whether colour is on; `no_color_set` says whether the environment
    /// sets `NO_COLOR`, which turns the automatic choice off.
    pub fn enabled_when(self, no_color_set: bool) -> (b: bool)
        ensures
            b == (match self {
                ColorChoice::Always => true,
                ColorChoice::Never => false,
                ColorChoice::Auto => !no_color_set,
            }),
    {
        match self {
            ColorChoice::Always => true,
            ColorChoice::Never => false,
            ColorChoice::Auto => !no_color_set,
        }
    }
}

/// A command-line error the grammar alone does not catch.
/// How a report is shown: its format, whether in colour, and whether in
/// the interactive explorer.
#[derive(Debug, Clone, Copy)]
pub struct OutputOptions {
    pub format: OutputFormat,
    pub color: bool,
    pub interactive: bool,
}

#[derive(Debug, Clone, Copy, PartialEq, Eq, Structural)]
pub enum CliError {
    /// `--interactive` together with `--json`.
    InteractiveWithJson,
}

/// The interactive flag of the command, if it has one.
pub open spec fn wants_interactive(c: Option<Command>) -> bool {
    match c {
        Some(Command::Audit(a)) => a.interactive,
        Some(Command::Fix(f)) => f.interactive,
        _ => false,
    }
}

impl ParsedArgs {
    /// The command, or `audit .` when none was given.
    pub fn command_or_default(self) -> (c: Command)
        ensures
            match self.command {
                Some(given) => c == given,
                None => (c matches Command::Audit(a) && a.path@ == "."@ && a.config.is_none()
                    && !a.strict && !a.interactive),
            },
    {
        match self.command {
            Some(c) => c,
            None => Command::Audit(
                AuditArgs { path: ".".to_owned(), config: None, strict: false, interactive: false },
            ),
        }
    }

    pub fn output_format(&self) -> (f: OutputFormat)
        ensures
            f == (if self.json {
                OutputFormat::Json
            } else {
                OutputFormat::Human
            }),
    {
        if self.json {
            OutputFormat::Json
        } else {
            OutputFormat::Human
        }
    }

    pub fn color_choice(&self) -> (c: ColorChoice)
        ensures
            c == (if self.color {
                ColorChoice::Always
            } else if self.no_color {
                ColorChoice::Never
            } else {
                ColorChoice::Auto
            }),
    {
        if self.color {
            ColorChoice::Always
        } else if self.no_color {
            ColorChoice::Never
        } else {
            ColorChoice::Auto
        }
    }

    /// The output options of a run: colour only for human output, as the
    /// colour choice allows given whether `NO_COLOR` is set; never
    /// interactive until a command asks for it.
    pub fn output_options(&self, no_color_set: bool) -> (o: OutputOptions)
        ensures
            o.format == (if self.json {
                OutputFormat::Json
            } else {
                OutputFormat::Human
            }),
            o.color == (!self.json && (self.color || (!self.no_color && !no_color_set))),
            !o.interactive,
    {
        let format = self.output_format();
        let color = match format {
            OutputFormat::Human => self.color_choice().enabled_when(no_color_set),
            OutputFormat::Json => false,
        };
        OutputOptions { format, color, interactive: false }
    }

    /// Refuses `--interactive` together with `--json`.
    pub fn validate(self) -> (r: Result<ParsedArgs, CliError>)
        ensures
            (self.json && wants_interactive(self.command)) ==> r == Err::<ParsedArgs, CliError>(
                CliError::InteractiveWithJson,
            ),
            !(self.json && wants_interactive(self.command)) ==> (r matches Ok(a) && a == self),
    {
        if self.json {
            let interactive = match &self.command {
                Some(Command::Audit(command)) => command.interactive,
                Some(Command::Fix(command)) => command.interactive,
                _ => false,
            };
            if interactive {
                return Err(CliError::InteractiveWithJson);
            }
        }
        Ok(self)
    }
}

/// The names of the subcommands.
pub open spec fn subcommands() -> Seq<Seq<char>> {
    seq!["audit"@, "doctor"@, "init"@, "fix"@, "prompt"@, "help"@, "version"@]
}

/// The first argument after the program name that is not an option.
pub open spec fn first_positional(raw: Seq<Seq<char>>) -> Option<int> {
    if exists|i: int| 1 <= i < raw.len() && !starts_with(#[trigger] raw[i], "-"@) {
        Some(
            choose|i: int|
                1 <= i < raw.len() && !starts_with(#[trigger] raw[i], "-"@) && forall|k: int|
                    1 <= k < i ==> starts_with(#[trigger] raw[k], "-"@),
        )
    } else {
        None
    }
}

/// The arguments with `audit` put before the first positional argument when
/// that argument is not a subcommand, so that `ossify PATH` audits PATH.
pub open spec fn prepare_spec(raw: Seq<Seq<char>>) -> Seq<Seq<char>> {
    if raw.len() <= 1 {
        raw
    } else {
        match first_positional(raw) {
            Some(i) => if subcommands().contains(raw[i]) {
                raw
            } else {
                raw.insert(i, "audit"@)
            },
            None => raw,
        }
    }
}

fn is_subcommand(v: &str) -> (b: bool)
    ensures
        b == subcommands().contains(v@),
{
    let b = str_eq(v, "audit") || str_eq(v, "doctor") || str_eq(v, "init") || str_eq(v, "fix")
        || str_eq(v, "prompt") || str_eq(v, "help") || str_eq(v, "version");
    proof {
        if b {
            if v@ == "audit"@ {
                assert(subcommands()[0] == v@);
            } else if v@ == "doctor"@ {
                assert(subcommands()[1] == v@);
            } else if v@ == "init"@ {
                assert(subcommands()[2] == v@);
            } else if v@ == "fix"@ {
                assert(subcommands()[3] == v@);
            } else if v@ == "prompt"@ {
                assert(subcommands()[4] == v@);
            } else if v@ == "help"@ {
                assert(subcommands()[5] == v@);
            } else {
                assert(subcommands()[6] == v@);
            }
        }
    }
    b
}

/// Puts `audit` before a first positional argument that is not a
/// subcommand.
pub fn prepare_default_command(raw: Vec<String>) -> (r: Vec<String>)
    ensures
        views(r@) == prepare_spec(views(raw@)),
{
    if raw.len() <= 1 {
        return raw;
    }
    let ghost rv = views(raw@);
    let mut i: usize = 1;
    while i < raw.len()
        invariant
            1 <= i <= raw.len(),
            rv == views(raw@),
            forall|k: int| 1 <= k < i ==> starts_with(#[trigger] rv[k], "-"@),
        decreases raw.len() - i,
    {
        if !str_starts_with(raw[i].as_str(), "-") {
            assert(!starts_with(rv[i as int], "-"@));
            let ghost w = choose|j: int|
                1 <= j < rv.len() && !starts_with(#[trigger] rv[j], "-"@) && forall|k: int|
                    1 <= k < j ==> starts_with(#[trigger] rv[k], "-"@);
            proof {
                assert(1 <= i < rv.len() && !starts_with(rv[i as int], "-"@) && forall|k: int|
                    1 <= k < i ==> starts_with(#[trigger] rv[k], "-"@));
                if w < i {
                    assert(starts_with(rv[w], "-"@));
                } else if w > i {
                    assert(starts_with(rv[i as int], "-"@));
                }
            }
            assert(first_positional(rv) == Some(i as int));
            if is_subcommand(raw[i].as_str()) {
                return raw;
            }
            let mut out = raw;
            out.insert(i, "audit".to_owned());
            assert(views(out@) =~= rv.insert(i as int, "audit"@));
            return out;
        }
        i += 1;
    }
    assert(first_positional(rv) is None);
    raw
}

} // verus!
