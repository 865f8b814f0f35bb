//! Persistence command surface for a desktop application's project and
//! export files.
//!
//! The library holds the decision logic of five commands: load a project
//! file, save a project file, check that a project file exists, save an
//! export file, and save a base64-encoded export file. Each command
//! performs one filesystem action and translates any failure into a flat,
//! human-readable message that names the offending path and the underlying
//! cause. The filesystem actions themselves are the embedding
//! application's concern: the functions here take the outcome of such an
//! action as a plain value and produce the command's response, so that the
//! message construction and the base64 decoding are fully specified.

pub mod codec;
pub mod commands;
pub mod messages;
