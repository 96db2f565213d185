# ossify

Repository readiness checks for open source projects: eighteen audit rules
(manifest, license, README, examples, community files, CI, tests, lint,
Dependabot, changelog, release workflow), the docs, workflow, dependency and
release doctors, scoring, prompt planning and the terminal reports.

## Layout

- `src/` is the verified library. Every rule takes the repository's contents
  as plain values and states in its contract the assessment it returns.
  Manifests (`Cargo.toml`, `package.json`, `pyproject.toml`), workflow YAML
  and the JSON reports of cargo-deny, audit-ci and pip-audit are parsed in
  `structured.rs` and read in `manifests.rs`; the audit dashboard is laid
  out in `dashboard.rs`; `laws.rs` holds the properties that span
  functions.
- `app/` is the command line around it: argument parsing, walking and
  reading the repository, running the external engines, the floating-point
  trust blend, and printing.
- `tests/` exercises the library on concrete inputs.

## What is not provided

`init` and `fix` write files from templates that are not part of this
tree, so they stop with an error; the planning pieces they rest on
(`plan_file`, `items_from_checks`, `planned_upgrades`, `upgrade_checks`,
`rescore_report`) are in the library. The interactive explorer's state
machine is in `src/explorer.rs`, but there is no terminal UI, so
`--interactive` prints the dashboard.

The scoring profile for Rust dependencies
(`knowledge/calibration/rust-deps-profile.toml`) and the rule knowledge
packs are not part of this tree either; the command reads the profile from
the working directory, so `audit` and `doctor deps` need it there.
