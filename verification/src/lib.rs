//! The verified core of a desktop shell around the DSH runtime.

pub mod check;
pub mod controller;
pub mod entries;
pub mod http;
pub mod hub;
pub mod install;
pub mod json;
pub mod launch;
pub mod location;
pub mod npm;
pub mod plugin_job;
pub mod plugin_spec;
pub mod plugins;
pub mod pnpm;
pub mod restore;
pub mod runtime;
pub mod shell;
pub mod state;
pub mod steps;
pub mod supervisor;
pub mod termination;
pub mod text;
pub mod versions;
