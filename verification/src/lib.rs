//! An event-captured durable notification queue.
//!
//! A task-orchestration host commits status transitions of execution
//! processes; this library turns the first transition into a terminal status
//! into a durable queue record, lets a single worker claim and process each
//! record exactly once, resolves per-scope delivery configuration against a
//! global default, and drives every record to one of three terminal outcomes
//! (`sent`, `skipped`, `failed`).
//!
//! The queue itself, the capture guard, the claim protocol and the worker's
//! decisions are verified here; the host process wires them to its own
//! relational store and HTTP delivery client.

pub mod assets;
pub mod capture;
pub mod config;
pub mod delivery;
pub mod endpoints;
pub mod ids;
pub mod instance;
pub mod message;
pub mod migrate;
pub mod ports;
pub mod queue;
pub mod status;
pub mod strutil;
pub mod tasks;
pub mod worker;
