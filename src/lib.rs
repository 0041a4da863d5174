//! Provisioning engine for an operating-system install: a registry of named
//! tasks, an engine that runs a stage's tasks in order with halt-on-error
//! semantics, and the decisions behind running external commands and crossing
//! into a chroot or past a reboot.

pub mod command;
pub mod config;
pub mod crossing;
pub mod engine;
pub mod env;
pub mod error;
pub mod installer;
pub mod plan;
pub mod runner;
pub mod tasks;
