//! Control/telemetry bridge core between a host application and a remote
//! embedded radio/sensor device.
//!
//! The crate keeps the canonical catalog of device commands, translates UI
//! actions into command keys, enforces that at most one long-running session
//! is active at a time, plans the ordered transport sends for a command
//! (including the automatic stop of a conflicting prior session), decodes
//! telemetry messages (JSON or length/tag-encoded binary frames) into
//! normalized records, and renders those records as per-module CSV output.
//!
//! Everything that physically moves bytes (the Bluetooth transports, the
//! ingestion thread, the channel files on disk) lives outside this crate;
//! the crate only decides what to send and what to write.

pub mod actions;
pub mod b64;
pub mod commands;
pub mod decode;
pub mod dectext;
pub mod device;
pub mod dispatch;
pub mod fixed6;
pub mod frame;
pub mod jsonio;
pub mod numfmt;
pub mod record;
pub mod session;
pub mod sink;
pub mod text;
pub mod ui_pages;
