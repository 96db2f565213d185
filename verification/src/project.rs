//! What kind of project a repository holds, its name, and the commands that
//! build, run and test it.
use vstd::prelude::*;
use crate::text::{
    ascii_lower, ascii_lower_char, chars_of, concat_str, ends_with, find_char, find_seq, find_str,
    first_index_of, is_ascii_alnum, is_ascii_alnum_char, lines, lines_of, prefix_until, replace_char,
    replace_char_seq, starts_with, str_eq, str_ends_with, str_starts_with, string_from_chars,
    suffix_from, trim, trim_char, trim_char_seq, trim_seq, trim_start, trim_start_seq, views,
};

verus! {

#[derive(Debug, Clone, Copy, PartialEq, Eq, Structural)]
pub enum ProjectKind {
    Rust,
    Node,
    Python,
    Go,
    Unknown,
}

/// What a repository is for, which shifts how much each rule weighs.
#[derive(Debug, Clone, Copy, PartialEq, Eq, Structural)]
pub enum RepoProfile {
    Library,
    Cli,
    App,
    Generic,
}

pub open spec fn kind_str(k: ProjectKind) -> Seq<char> {
    match k {
        ProjectKind::Rust => "rust"@,
        ProjectKind::Node => "node"@,
        ProjectKind::Python => "python"@,
        ProjectKind::Go => "go"@,
        ProjectKind::Unknown => "unknown"@,
    }
}

pub open spec fn kind_display_name(k: ProjectKind) -> Seq<char> {
    match k {
        ProjectKind::Rust => "Rust"@,
        ProjectKind::Node => "Node.js"@,
        ProjectKind::Python => "Python"@,
        ProjectKind::Go => "Go"@,
        ProjectKind::Unknown => "Unknown"@,
    }
}

pub open spec fn kind_ci_keywords(k: ProjectKind) -> Seq<Seq<char>> {
    match k {
        ProjectKind::Rust => seq!["cargo check"@, "cargo test"@, "cargo build"@],
        ProjectKind::Node => seq![
            "npm test"@,
            "pnpm test"@,
            "yarn test"@,
            "npm run build"@,
            "pnpm build"@,
            "yarn build"@,
        ],
        ProjectKind::Python => seq!["pytest"@, "python -m pytest"@, "ruff"@, "uv run pytest"@],
        ProjectKind::Go => seq!["go test ./..."@, "go build ./..."@],
        ProjectKind::Unknown => Seq::empty(),
    }
}

pub open spec fn str_views(v: Seq<&str>) -> Seq<Seq<char>> {
    v.map_values(|s: &str| s@)
}

impl ProjectKind {
    pub fn as_str(self) -> (r: &'static str)
        ensures
            r@ == kind_str(self),
    {
        match self {
            ProjectKind::Rust => "rust",
            ProjectKind::Node => "node",
            ProjectKind::Python => "python",
            ProjectKind::Go => "go",
            ProjectKind::Unknown => "unknown",
        }
    }

    pub fn display_name(self) -> (r: &'static str)
        ensures
            r@ == kind_display_name(self),
    {
        match self {
            ProjectKind::Rust => "Rust",
            ProjectKind::Node => "Node.js",
            ProjectKind::Python => "Python",
            ProjectKind::Go => "Go",
            ProjectKind::Unknown => "Unknown",
        }
    }

    /// Commands whose presence in CI shows the stack is really exercised.
    pub fn ci_keywords(self) -> (r: Vec<&'static str>)
        ensures
            str_views(r@) == kind_ci_keywords(self),
    {
        let v: Vec<&'static str> = match self {
            ProjectKind::Rust => vec!["cargo check", "cargo test", "cargo build"],
            ProjectKind::Node => vec![
                "npm test",
                "pnpm test",
                "yarn test",
                "npm run build",
                "pnpm build",
                "yarn build",
            ],
            ProjectKind::Python => vec!["pytest", "python -m pytest", "ruff", "uv run pytest"],
            ProjectKind::Go => vec!["go test ./...", "go build ./..."],
            ProjectKind::Unknown => Vec::new(),
        };
        assert(str_views(v@) =~= kind_ci_keywords(self));
        v
    }
}

pub open spec fn profile_display_name(p: RepoProfile) -> Seq<char> {
    match p {
        RepoProfile::Library => "library"@,
        RepoProfile::Cli => "CLI"@,
        RepoProfile::App => "app"@,
        RepoProfile::Generic => "generic"@,
    }
}

impl RepoProfile {
    pub fn display_name(self) -> (r: &'static str)
        ensures
            r@ == profile_display_name(self),
    {
        match self {
            RepoProfile::Library => "library",
            RepoProfile::Cli => "CLI",
            RepoProfile::App => "app",
            RepoProfile::Generic => "generic",
        }
    }
}

/// The detected project: its kind, its name and the manifest it came from.
#[derive(Debug, Clone)]
pub struct ProjectContext {
    pub kind: ProjectKind,
    pub name: String,
    pub manifest_path: Option<String>,
}

/// ASCII letters, digits, `-` and `_` lowercased; anything else a dash.
pub open spec fn binary_char(c: char) -> char {
    if is_ascii_alnum(c) || c == '-' || c == '_' {
        ascii_lower(c)
    } else {
        '-'
    }
}

/// A command name derived from the project name.
pub open spec fn binary_name_spec(name: Seq<char>) -> Seq<char> {
    trim_char_seq(name.map_values(|c: char| binary_char(c)), '-')
}

pub open spec fn module_name_spec(name: Seq<char>) -> Seq<char> {
    replace_char_seq(binary_name_spec(name), '-', '_')
}

pub open spec fn install_snippet_spec(k: ProjectKind) -> Seq<char> {
    match k {
        ProjectKind::Rust => "cargo build"@,
        ProjectKind::Node => "npm install"@,
        ProjectKind::Python => "python -m pip install -e ."@,
        ProjectKind::Go => "go build ./..."@,
        ProjectKind::Unknown => "# add installation instructions for your project"@,
    }
}

pub open spec fn usage_snippet_spec(k: ProjectKind, name: Seq<char>) -> Seq<char> {
    match k {
        ProjectKind::Rust => "cargo run -- --help"@,
        ProjectKind::Node => "npm run start"@,
        ProjectKind::Python => "python -m "@ + module_name_spec(name),
        ProjectKind::Go => "go run ."@,
        ProjectKind::Unknown => binary_name_spec(name) + " --help"@,
    }
}

pub open spec fn test_snippet_spec(k: ProjectKind) -> Seq<char> {
    match k {
        ProjectKind::Rust => "cargo test"@,
        ProjectKind::Node => "npm test"@,
        ProjectKind::Python => "python -m pytest"@,
        ProjectKind::Go => "go test ./..."@,
        ProjectKind::Unknown => "# add your test command here"@,
    }
}

impl ProjectContext {
    pub fn summary(&self) -> (r: String)
        ensures
            r@ == (match self.manifest_path {
                Some(p) => kind_display_name(self.kind) + " via "@ + p@,
                None => kind_display_name(self.kind),
            }),
    {
        match &self.manifest_path {
            Some(p) => {
                let mut s = concat_str(self.kind.display_name(), " via ");
                s.append(p.as_str());
                s
            },
            None => self.kind.display_name().to_owned(),
        }
    }

    pub fn install_snippet(&self) -> (r: String)
        ensures
            r@ == install_snippet_spec(self.kind),
    {
        match self.kind {
            ProjectKind::Rust => "cargo build".to_owned(),
            ProjectKind::Node => "npm install".to_owned(),
            ProjectKind::Python => "python -m pip install -e .".to_owned(),
            ProjectKind::Go => "go build ./...".to_owned(),
            ProjectKind::Unknown => "# add installation instructions for your project".to_owned(),
        }
    }

    pub fn usage_snippet(&self) -> (r: String)
        ensures
            r@ == usage_snippet_spec(self.kind, self.name@),
    {
        match self.kind {
            ProjectKind::Rust => "cargo run -- --help".to_owned(),
            ProjectKind::Node => "npm run start".to_owned(),
            ProjectKind::Python => concat_str("python -m ", self.module_name().as_str()),
            ProjectKind::Go => "go run .".to_owned(),
            ProjectKind::Unknown => concat_str(self.binary_name().as_str(), " --help"),
        }
    }

    pub fn test_snippet(&self) -> (r: String)
        ensures
            r@ == test_snippet_spec(self.kind),
    {
        match self.kind {
            ProjectKind::Rust => "cargo test".to_owned(),
            ProjectKind::Node => "npm test".to_owned(),
            ProjectKind::Python => "python -m pytest".to_owned(),
            ProjectKind::Go => "go test ./...".to_owned(),
            ProjectKind::Unknown => "# add your test command here".to_owned(),
        }
    }

    pub fn binary_name(&self) -> (r: String)
        ensures
            r@ == binary_name_spec(self.name@),
    {
        let v = chars_of(self.name.as_str());
        let mut out: Vec<char> = Vec::new();
        let mut i: usize = 0;
        while i < v.len()
            invariant
                i <= v.len(),
                v@ == self.name@,
                out@ == v@.take(i as int).map_values(|c: char| binary_char(c)),
            decreases v.len() - i,
        {
            let c = v[i];
            let m = if is_ascii_alnum_char(c) || c == '-' || c == '_' {
                ascii_lower_char(c)
            } else {
                '-'
            };
            out.push(m);
            assert(v@.take(i + 1).map_values(|c: char| binary_char(c)) =~= v@.take(
                i as int,
            ).map_values(|c: char| binary_char(c)).push(binary_char(c)));
            i += 1;
        }
        assert(v@.take(v.len() as int) =~= v@);
        string_from_chars(&trim_char(&out, '-'))
    }

    pub fn module_name(&self) -> (r: String)
        ensures
            r@ == module_name_spec(self.name@),
    {
        replace_char(self.binary_name().as_str(), '-', '_')
    }
}

// ---------------------------------------------------------------------------
// Manifest parsing
// ---------------------------------------------------------------------------

/// The text between the first two double quotes of a line.
pub open spec fn parse_quoted_value_spec(line: Seq<char>) -> Option<Seq<char>> {
    match first_index_of(line, '"') {
        None => None,
        Some(i) => {
            let rest = line.subrange(i + 1, line.len() as int);
            match first_index_of(rest, '"') {
                None => None,
                Some(j) => Some(rest.subrange(0, j)),
            }
        },
    }
}

pub proof fn lemma_first_index_in_range(s: Seq<char>, c: char)
    ensures
        first_index_of(s, c) matches Some(i) ==> 0 <= i < s.len() && s[i] == c,
    decreases s.len(),
{
    if s.len() > 0 {
        lemma_first_index_in_range(s.drop_first(), c);
    }
}

pub fn parse_quoted_value(line: &str) -> (r: Option<String>)
    ensures
        crate::rust_deps::opt_view(r) == parse_quoted_value_spec(line@),
{
    let n = line.unicode_len();
    let i = match find_char(line, '"') {
        Some(i) => i,
        None => return None,
    };
    let remainder = suffix_from(line, i + 1);
    let j = match find_char(remainder.as_str(), '"') {
        Some(j) => j,
        None => return None,
    };
    Some(prefix_until(remainder.as_str(), j))
}

/// Characters trimmed from both ends of a section header.
pub open spec fn is_bracket(c: char) -> bool {
    c == '[' || c == ']'
}

pub open spec fn trim_brackets_start(s: Seq<char>) -> Seq<char>
    decreases s.len(),
{
    if s.len() > 0 && is_bracket(s[0]) {
        trim_brackets_start(s.drop_first())
    } else {
        s
    }
}

pub open spec fn trim_brackets_end(s: Seq<char>) -> Seq<char>
    decreases s.len(),
{
    if s.len() > 0 && is_bracket(s.last()) {
        trim_brackets_end(s.drop_last())
    } else {
        s
    }
}

pub open spec fn trim_brackets(s: Seq<char>) -> Seq<char> {
    trim_brackets_end(trim_brackets_start(s))
}

fn trim_brackets_exec(s: &str) -> (r: String)
    ensures
        r@ == trim_brackets(s@),
{
    let v = chars_of(s);
    let mut i: usize = 0;
    assert(v@.subrange(0, v@.len() as int) =~= v@);
    while i < v.len() && (v[i] == '[' || v[i] == ']')
        invariant
            i <= v.len(),
            v@ == s@,
            trim_brackets_start(s@) == trim_brackets_start(v@.subrange(i as int, v@.len() as int)),
        decreases v.len() - i,
    {
        assert(v@.subrange(i + 1, v@.len() as int) =~= v@.subrange(i as int, v@.len() as int).drop_first());
        i += 1;
    }
    let mut j: usize = v.len();
    while j > i && (v[j - 1] == '[' || v[j - 1] == ']')
        invariant
            i <= j <= v.len(),
            trim_brackets_end(v@.subrange(i as int, v@.len() as int)) == trim_brackets_end(
                v@.subrange(i as int, j as int),
            ),
        decreases j,
    {
        assert(v@.subrange(i as int, j - 1) =~= v@.subrange(i as int, j as int).drop_last());
        j -= 1;
    }
    string_from_chars(&crate::text::subvec(&v, i, j))
}

/// The quoted `name` value inside the TOML section `section`, scanning the
/// lines from the front; `in_section` says whether the scan is inside it.
pub open spec fn toml_name_scan(ls: Seq<Seq<char>>, section: Seq<char>, in_section: bool) -> Option<
    Seq<char>,
>
    decreases ls.len(),
{
    if ls.len() == 0 {
        None
    } else {
        let t = trim_seq(ls[0]);
        if starts_with(t, "["@) && ends_with(t, "]"@) {
            toml_name_scan(ls.drop_first(), section, trim_brackets(t) == section)
        } else if in_section && starts_with(t, "name"@) {
            parse_quoted_value_spec(t)
        } else {
            toml_name_scan(ls.drop_first(), section, in_section)
        }
    }
}

pub fn parse_toml_name_in_section(contents: &str, section: &str) -> (r: Option<String>)
    ensures
        crate::rust_deps::opt_view(r) == toml_name_scan(lines_of(contents@), section@, false),
{
    let ls = lines(contents);
    let mut in_section = false;
    let mut i: usize = 0;
    assert(views(ls@).subrange(0, ls@.len() as int) =~= views(ls@));
    while i < ls.len()
        invariant
            i <= ls.len(),
            views(ls@) == lines_of(contents@),
            toml_name_scan(lines_of(contents@), section@, false) == toml_name_scan(
                views(ls@).subrange(i as int, ls@.len() as int),
                section@,
                in_section,
            ),
        decreases ls.len() - i,
    {
        let ghost rest = views(ls@).subrange(i as int, ls@.len() as int);
        assert(rest[0] == ls@[i as int]@);
        assert(rest.drop_first() =~= views(ls@).subrange(i + 1, ls@.len() as int));
        let trimmed = trim(ls[i].as_str());
        if str_starts_with(trimmed.as_str(), "[") && str_ends_with(trimmed.as_str(), "]") {
            let current = trim_brackets_exec(trimmed.as_str());
            in_section = str_eq(current.as_str(), section);
            i += 1;
            continue;
        }
        if in_section && str_starts_with(trimmed.as_str(), "name") {
            return parse_quoted_value(trimmed.as_str());
        }
        i += 1;
    }
    None
}

/// The `"name"` value of a JSON manifest, found textually: the first
/// `"name"` key, a colon, optional whitespace, then a quoted string.
/// What follows a JSON key: a colon, optional whitespace, then the text of
/// a quoted string.
pub open spec fn json_string_after_key(remainder: Seq<char>) -> Option<Seq<char>> {
    match first_index_of(remainder, ':') {
        None => None,
        Some(colon) => {
            let after = trim_start_seq(remainder.subrange(colon + 1, remainder.len() as int));
            if after.len() > 0 && after[0] == '"' {
                let quoted = after.subrange(1, after.len() as int);
                match first_index_of(quoted, '"') {
                    None => None,
                    Some(end) => Some(quoted.subrange(0, end)),
                }
            } else {
                None
            }
        },
    }
}

/// The `"name"` value of a JSON manifest, found textually: the first
/// `"name"` key, a colon, optional whitespace, then a quoted string.
pub open spec fn parse_json_name_spec(contents: Seq<char>) -> Option<Seq<char>> {
    match find_seq(contents, "\"name\""@) {
        None => None,
        Some(start) => json_string_after_key(
            contents.subrange(start + ("\"name\""@).len(), contents.len() as int),
        ),
    }
}

fn json_string_after_key_exec(remainder: &str) -> (r: Option<String>)
    ensures
        crate::rust_deps::opt_view(r) == json_string_after_key(remainder@),
{
    let n = remainder.unicode_len();
    let colon = match find_char(remainder, ':') {
        Some(c) => c,
        None => return None,
    };
    let after_colon = trim_start(suffix_from(remainder, colon + 1).as_str());
    let av = chars_of(after_colon.as_str());
    if av.len() == 0 || av[0] != '"' {
        return None;
    }
    let quoted = suffix_from(after_colon.as_str(), 1);
    let end = match find_char(quoted.as_str(), '"') {
        Some(e) => e,
        None => return None,
    };
    Some(prefix_until(quoted.as_str(), end))
}

pub fn parse_json_name(contents: &str) -> (r: Option<String>)
    ensures
        crate::rust_deps::opt_view(r) == parse_json_name_spec(contents@),
{
    let key = "\"name\"";
    let n = contents.unicode_len();
    let start = match find_str(contents, key) {
        Some(s) => s,
        None => return None,
    };
    let key_len = key.unicode_len();
    let remainder = suffix_from(contents, start + key_len);
    json_string_after_key_exec(remainder.as_str())
}

/// The module path of a `go.mod`: the first line that, trimmed, starts with
/// `module `, with the rest trimmed and stripped of quotes.
pub open spec fn go_module_scan(ls: Seq<Seq<char>>) -> Option<Seq<char>>
    decreases ls.len(),
{
    if ls.len() == 0 {
        None
    } else {
        let t = trim_seq(ls[0]);
        if starts_with(t, "module "@) {
            Some(trim_char_seq(trim_seq(t.subrange(("module "@).len() as int, t.len() as int)), '"'))
        } else {
            go_module_scan(ls.drop_first())
        }
    }
}

pub fn parse_go_module(contents: &str) -> (r: Option<String>)
    ensures
        crate::rust_deps::opt_view(r) == go_module_scan(lines_of(contents@)),
{
    let ls = lines(contents);
    let mut i: usize = 0;
    assert(views(ls@).subrange(0, ls@.len() as int) =~= views(ls@));
    while i < ls.len()
        invariant
            i <= ls.len(),
            views(ls@) == lines_of(contents@),
            go_module_scan(lines_of(contents@)) == go_module_scan(
                views(ls@).subrange(i as int, ls@.len() as int),
            ),
        decreases ls.len() - i,
    {
        let ghost rest = views(ls@).subrange(i as int, ls@.len() as int);
        assert(rest[0] == ls@[i as int]@);
        assert(rest.drop_first() =~= views(ls@).subrange(i + 1, ls@.len() as int));
        let trimmed = trim(ls[i].as_str());
        match crate::text::strip_prefix(trimmed.as_str(), "module ") {
            Some(value) => {
                let t = trim(value.as_str());
                let tv = chars_of(t.as_str());
                return Some(string_from_chars(&trim_char(&tv, '"')));
            },
            None => {},
        }
        i += 1;
    }
    None
}

/// `dir` joined with a relative `name`, as `Path::join` writes it.
pub open spec fn join_path_spec(dir: Seq<char>, name: Seq<char>) -> Seq<char> {
    if dir.len() == 0 || dir.last() == '/' {
        dir + name
    } else {
        dir + "/"@ + name
    }
}

pub fn join_path(dir: &str, name: &str) -> (r: String)
    ensures
        r@ == join_path_spec(dir@, name@),
{
    let v = chars_of(dir);
    if v.len() == 0 || v[v.len() - 1] == '/' {
        concat_str(dir, name)
    } else {
        let mut s = concat_str(dir, "/");
        s.append(name);
        s
    }
}

/// The project a repository holds, from the manifests at its root, tried
/// in the order `Cargo.toml`, `package.json`, `pyproject.toml`, `go.mod`,
/// then `requirements.txt`, which makes a Python project named after the
/// directory. Each text argument holds the manifest's text when the file
/// exists; `requirements_txt` says that `requirements.txt` exists.
pub open spec fn detect_project_spec(
    fallback: Seq<char>,
    root: Seq<char>,
    cargo: Option<Seq<char>>,
    package_json: Option<Seq<char>>,
    pyproject: Option<Seq<char>>,
    go_mod: Option<Seq<char>>,
    requirements_txt: bool,
) -> (ProjectKind, Seq<char>, Option<Seq<char>>) {
    let pick = |parsed: Option<Seq<char>>|
        match parsed {
            Some(n) => n,
            None => fallback,
        };
    if cargo is Some {
        (
            ProjectKind::Rust,
            pick(toml_name_scan(lines_of(cargo->0), "package"@, false)),
            Some(join_path_spec(root, "Cargo.toml"@)),
        )
    } else if package_json is Some {
        (
            ProjectKind::Node,
            pick(parse_json_name_spec(package_json->0)),
            Some(join_path_spec(root, "package.json"@)),
        )
    } else if pyproject is Some {
        (
            ProjectKind::Python,
            pick(
                match toml_name_scan(lines_of(pyproject->0), "project"@, false) {
                    Some(n) => Some(n),
                    None => toml_name_scan(lines_of(pyproject->0), "tool.poetry"@, false),
                },
            ),
            Some(join_path_spec(root, "pyproject.toml"@)),
        )
    } else if go_mod is Some {
        (
            ProjectKind::Go,
            pick(go_module_scan(lines_of(go_mod->0))),
            Some(join_path_spec(root, "go.mod"@)),
        )
    } else if requirements_txt {
        (ProjectKind::Python, fallback, Some(join_path_spec(root, "requirements.txt"@)))
    } else {
        (ProjectKind::Unknown, fallback, None)
    }
}

pub fn detect_project(
    fallback_name: &str,
    root: &str,
    cargo: Option<String>,
    package_json: Option<String>,
    pyproject: Option<String>,
    go_mod: Option<String>,
    requirements_txt: bool,
) -> (p: ProjectContext)
    ensures
        (p.kind, p.name@, crate::rust_deps::opt_view(p.manifest_path)) == detect_project_spec(
            fallback_name@,
            root@,
            crate::rust_deps::opt_view(cargo),
            crate::rust_deps::opt_view(package_json),
            crate::rust_deps::opt_view(pyproject),
            crate::rust_deps::opt_view(go_mod),
            requirements_txt,
        ),
        !(cargo is Some || package_json is Some || pyproject is Some || go_mod is Some)
            && requirements_txt ==> (p.kind == ProjectKind::Python && (p.manifest_path matches Some(
            m,
        ) && m@ == join_path_spec(root@, "requirements.txt"@))),
{
    let (kind, parsed, manifest) = if let Some(c) = cargo {
        (ProjectKind::Rust, parse_toml_name_in_section(c.as_str(), "package"), "Cargo.toml")
    } else if let Some(c) = package_json {
        (ProjectKind::Node, parse_json_name(c.as_str()), "package.json")
    } else if let Some(c) = pyproject {
        let first = parse_toml_name_in_section(c.as_str(), "project");
        let parsed = match first {
            Some(n) => Some(n),
            None => parse_toml_name_in_section(c.as_str(), "tool.poetry"),
        };
        (ProjectKind::Python, parsed, "pyproject.toml")
    } else if let Some(c) = go_mod {
        (ProjectKind::Go, parse_go_module(c.as_str()), "go.mod")
    } else if requirements_txt {
        (ProjectKind::Python, None, "requirements.txt")
    } else {
        return ProjectContext {
            kind: ProjectKind::Unknown,
            name: fallback_name.to_owned(),
            manifest_path: None,
        };
    };
    let name = match parsed {
        Some(n) => n,
        None => fallback_name.to_owned(),
    };
    ProjectContext { kind, name, manifest_path: Some(join_path(root, manifest)) }
}

/// The Dependabot name of a stack's package ecosystem.
pub open spec fn package_ecosystem_spec(k: ProjectKind) -> Option<Seq<char>> {
    match k {
        ProjectKind::Rust => Some("cargo"@),
        ProjectKind::Node => Some("npm"@),
        ProjectKind::Python => Some("pip"@),
        ProjectKind::Go => Some("gomod"@),
        ProjectKind::Unknown => None,
    }
}

impl ProjectKind {
    pub fn package_ecosystem(self) -> (r: Option<&'static str>)
        ensures
            match r {
                Some(e) => package_ecosystem_spec(self) == Some(e@),
                None => package_ecosystem_spec(self) is None,
            },
    {
        match self {
            ProjectKind::Rust => Some("cargo"),
            ProjectKind::Node => Some("npm"),
            ProjectKind::Python => Some("pip"),
            ProjectKind::Go => Some("gomod"),
            ProjectKind::Unknown => None,
        }
    }
}

} // verus!
