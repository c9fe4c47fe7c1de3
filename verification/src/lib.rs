//! A chat-triggered delivery pipeline for song maps: chat commands are parsed
//! and validated, a catalog lookup is resolved to download metadata, and the
//! fetched content is pushed to a paired device whose manifest file is
//! rewritten with the new entry.
//!
//! The crate holds the logic of that pipeline: command routing, argument and
//! URL validation, catalog-response and manifest-document handling, and the
//! device-bridge state machine that decides which bridge invocations run.
//! The surrounding process (chat session, HTTP, subprocesses) hands plain
//! values in and carries the decided actions out.

pub mod adb;
pub mod bsaber;
pub mod playlist;
pub mod router;
pub mod text;
