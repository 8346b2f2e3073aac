//! Build planning for the BearSSL native library: where its sources come
//! from, how they are compiled, and how its headers are turned into
//! foreign declarations.
//!
//! A build is a state machine. It reads nothing and runs nothing itself:
//! in each state it names one step (`protocol::Action`), and it moves on
//! when it is told how the step went (`protocol::Event`). `resolver` is
//! the search for the native library, `orchestrator` the build as a whole.
//! `resolution` and `course` state what a search and a build come to in
//! any surroundings (`world`), and hold the proofs.

pub mod bindings;
pub mod builder;
pub mod config;
pub mod course;
pub mod failure;
pub mod orchestrator;
pub mod path;
pub mod protocol;
pub mod resolution;
pub mod resolver;
pub mod source;
pub mod text;
pub mod world;
