//! The logic of a tutorial server whose viewers share shell sessions.
//!
//! The heart of the crate is the terminal subsystem. [`registry`] records
//! which sessions exist and who owns them; [`protocol`] and [`terminal`]
//! turn the frames that a viewer sends into changes of the registry and into
//! effects for the host to carry out; [`pump`] decides what becomes of each
//! read from a session's terminal; [`connection`] follows one viewer from
//! connect to disconnect; [`message`] holds what is published to the
//! viewers. [`laws`] states what holds across several of these operations.
//!
//! Nothing here performs I/O. The host owns the sockets, the terminals and
//! the files; it reports what happened and carries out what is returned.
//!
//! Beside the terminal subsystem stand the rules that the server's other
//! parts follow: [`progress`] for the learner's progress record, [`catalog`]
//! and [`listing`] for the exercise catalogue, [`assets`] for requests for
//! static files and [`cargo`] for runs of the build tool. [`text`] and
//! [`json`] hold what these share.

pub mod assets;
pub mod cargo;
pub mod catalog;
pub mod connection;
pub mod ident;
pub mod json;
pub mod laws;
pub mod listing;
pub mod message;
pub mod progress;
pub mod protocol;
pub mod pump;
pub mod registry;
pub mod terminal;
pub mod text;
