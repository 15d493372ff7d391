//! Verified core of an X11-style clipboard: the selection-acquisition state
//! machine, the owner-side service decisions with their incremental-transfer
//! bookkeeping, the offer registry, and the format-id codec.
//!
//! All transport I/O (connecting, sending requests, waiting on sockets) lives
//! outside this crate; the functions here decide, from plain values, what the
//! surrounding code must send and how accumulated state changes.
use vstd::prelude::*;

pub mod acquire;
pub mod codec;
pub mod registry;
pub mod serve;

verus! {

/// Protocol-level identifier naming a selection slot, a data format, or a
/// window property.
pub type Atom = u32;

/// The reserved id meaning "no atom": a reply carrying it declines a request.
pub const ATOM_NONE: Atom = 0;

/// The predefined id of the atom-array type, used for format enumeration
/// replies.
pub const ATOM_ATOM: Atom = 4;

/// Bytes written per incremental-transfer chunk.
pub const INCR_CHUNK_SIZE: usize = 4000;

/// Safety margin subtracted from the transport's maximum single-request byte
/// budget when deciding between direct and incremental delivery.
pub const REQUEST_SIZE_MARGIN: usize = 24;

/// Everything that can go wrong across the public operations.
#[derive(Clone, Copy, Debug, PartialEq, Eq, Structural)]
pub enum Error {
    /// Transport, window or identifier-resolution failure at construction.
    ConnectionSetup,
    /// A single protocol request was rejected by the transport.
    Request,
    /// A bounded wait exceeded the caller's budget.
    Timeout,
    /// Ownership of a selection could not be verified after asserting it.
    Owner,
    /// A reply payload's declared type matched neither the requested format
    /// nor an atom array; carries the offending type.
    UnexpectedType(Atom),
    /// The registry lock was found poisoned by a panic in another accessor.
    Lock,
    /// The internal notification channel closed unexpectedly.
    Channel,
    /// The shutdown signal could not be allocated at construction.
    SignalCreation,
}

/// The small fixed set of resolved identifiers every session needs.
#[derive(Clone, Copy, Debug, PartialEq, Eq, Structural)]
pub struct Atoms {
    pub primary: Atom,
    pub clipboard: Atom,
    pub property: Atom,
    pub targets: Atom,
    pub string: Atom,
    pub utf8_string: Atom,
    pub incr: Atom,
}

} // verus!
