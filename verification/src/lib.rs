//! A verified core for a remote-kernel session orchestrator.
//!
//! The library models the logic of launching a computational kernel inside a
//! WSL distribution and multiplexing its five-socket messaging protocol: port
//! selection, connection-descriptor construction and serialization, command
//! translation across the filesystem boundary, message classification and
//! per-channel request/reply routing, and session lifecycle supervision.
//! All I/O (sockets, processes, files) is performed by a thin unverified
//! shell around this crate; every decision it takes is computed here, under
//! contract.
//!
//! Alongside the orchestrator live the project's PDF items: identifiers,
//! metadata and page-text extraction through the PDF parser, and the page
//! arithmetic of the document viewer.

pub mod command;
pub mod descriptor;
pub mod discovery;
pub mod json;
pub mod launch;
pub mod lifecycle;
pub mod message;
pub mod outside;
pub mod pdf_store;
pub mod ports;
pub mod router;
pub mod session;
pub mod text;
pub mod viewer;

use vstd::prelude::*;

verus! {

/// Capacity of the outbound message queue; a full queue applies
/// backpressure to senders instead of dropping messages.
pub const OUTBOUND_QUEUE_CAPACITY: usize = 100;

} // verus!
