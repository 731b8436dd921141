//! Publishing a blog through a version-controlled repository.
//!
//! A server keeps its posts in a database and publishes them by rendering
//! each into a file of a local working copy, committing, and pushing to one
//! remote repository. This library holds what is decided along the way and
//! leaves the doing (the database, the disk, the version-control tool, the
//! network) to whoever calls it.
//!
//! - [`config`]: the record of the one repository, and the rules that an
//!   operator's input must pass before there is such a record.
//! - [`manager`]: the repository's life as a state machine. Each request
//!   and each outcome of outside work is an event; the machine answers with
//!   the next action. The recorded time of the last export moves only when
//!   a push has succeeded and the new record has been stored.
//! - [`operations`]: the requests that the server's pages make.
//! - [`laws`]: what holds of the machine over whole sequences of events.
//! - [`export`]: which posts an export writes, under which names and with
//!   what content.
//! - [`render`]: the text of a post under a template.
//! - [`remote`]: what the version-control tool's words tell of, and the
//!   address that carries a credential.
//! - [`post`]: posts, and the summary of a post for a list.
//! - [`settings`]: what is stored for a named setting.
//! - [`error`]: failures, and what the operator is told of them.
//! - [`text`]: the character-level helpers that the rest is built on.

pub mod config;
pub mod error;
pub mod export;
pub mod laws;
pub mod manager;
pub mod operations;
pub mod post;
pub mod remote;
pub mod render;
pub mod settings;
pub mod text;
