//! ossify: repository readiness checks, doctors and scoring.
use vstd::prelude::*;

pub mod audit;
pub mod audit_report;
pub mod cli;
pub mod config;
pub mod dashboard;
pub mod deps;
pub mod docs;
pub mod doctor;
pub mod domains;
pub mod engine_output;
pub mod engines;
pub mod explorer;
pub mod generator;
pub mod human;
pub mod intel;
pub mod knowledge;
pub mod laws;
pub mod manifest;
pub mod manifests;
pub mod order;
pub mod panels;
pub mod paths;
pub mod project;
pub mod prompt;
pub mod prompt_plan;
pub mod readme;
pub mod release;
pub mod release_rule;
pub mod render;
pub mod rules;
pub mod rust_deps;
pub mod security;
pub mod structured;
pub mod styled;
pub mod text;
pub mod ui;
pub mod workflow;

