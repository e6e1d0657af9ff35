//! Core engine of a recurring sprint-report service: it reconciles live
//! ticket-tracker records against the previously persisted daily snapshot,
//! classifies the reconciled tickets into report buckets, parses inbound
//! triggers into typed sprint commands, and decides which persisted state
//! changes and scheduler reconfigurations each command entails.
//!
//! All I/O (the tracker, the code-review service, the blob store, the
//! scheduler, the chat channel) lives outside this crate; the library works
//! on plain values and returns plain values.
//!
//! The engine reads top-down: `reconcile` merges live records with the
//! persisted snapshots of `records`, `summary` classifies what comes out,
//! `events` parses triggers into the `commands` whose state changes and
//! `report` blocks the orchestrator produces. `dates`, `numfmt`, `strutil`
//! and `checks` are the small shared pieces; `ticket`, `ticket_state` and
//! `ticket_label` the vocabulary; `triggers` the typed trigger payloads.

pub mod checks;
pub mod commands;
pub mod dates;
pub mod events;
pub mod numfmt;
pub mod reconcile;
pub mod records;
pub mod report;
pub mod strutil;
pub mod summary;
pub mod ticket;
pub mod triggers;
pub mod ticket_label;
pub mod ticket_state;
