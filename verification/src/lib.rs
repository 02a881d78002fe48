//! Verified core of a local GitHub Actions / GitLab CI workflow runner.
use vstd::prelude::*;

pub mod action_inputs;
pub mod action_resolver;
pub mod action_step;
pub mod actions;
pub mod composite;
pub mod dependency;
pub mod docker;
pub mod engine;
pub mod environment;
pub mod expr_lexer;
pub mod expr_parser;
pub mod expression;
pub mod gitlab;
pub mod heredoc;
pub mod language_env;
pub mod logging;
pub mod order;
pub mod paths;
pub mod podman;
pub mod reusable;
pub mod step_exec;
pub mod steps;
pub mod strmap;
pub mod symbols;
pub mod template;
pub mod text;
pub mod tracking;
pub mod workflow;
pub mod workflow_commands;

verus! {
} // verus!
