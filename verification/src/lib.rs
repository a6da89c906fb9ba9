//! Verified core of gitbox: a tool that adopts files and directories into
//! version-controlled repositories and keeps them synchronized with a remote.
//!
//! This crate holds the decisions: which repository a name stands for, what
//! a metadata record contains, which step of a synchronization comes next.
//! Its functions carry contracts that Verus checks. The surrounding program
//! performs the filesystem, subprocess and network work and feeds the
//! outcomes back into the decision functions defined here.
//!
//! A handful of functions call into the standard library or into other
//! crates (for trimming a string, joining a path, reading the clock, making
//! an identifier). Their contracts are assumed, not proved; each says so in
//! its documentation.

pub mod appinfo;
pub mod clock;
pub mod command;
pub mod config;
pub mod creation;
pub mod deletion;
pub mod error;
pub mod github;
pub mod keyed;
pub mod link;
pub mod listing;
pub mod metadata;
pub mod paths;
pub mod protocol;
pub mod repo;
pub mod report;
pub mod resolver;
pub mod text;
pub mod tracking;
