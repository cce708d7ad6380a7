//! Guarded management of a host's machine identifier.
//!
//! The identifier is a text of the form `8-4-4-4-12` hexadecimal digits
//! that the operating system keeps in a registry value, a file or a
//! program's output. This library validates it, keeps a history of its
//! former values, newest first, and changes it only under guard: before
//! the live identifier is replaced, its value is in the history.
//!
//! The library does no outside work itself. Each operation is a sequence
//! of steps ([`guard::Step`]); a step names the one piece of work that the
//! host has to do next, and the host's answer leads to the next step.
//!
//! - [`machine_id`]: the identifier's form, the backup records and the
//!   history.
//! - [`guard`]: the operations, step by step.
//! - [`laws`]: what the operations guarantee, on a model of the host.
//! - [`platform`]: where each platform keeps the identifier, and who may
//!   change it.
//! - [`commands`]: the answers that a caller in front of the library gets.
//! - [`text`]: small utilities on strings.

pub mod commands;
pub mod guard;
pub mod laws;
pub mod machine_id;
pub mod platform;
pub mod text;
