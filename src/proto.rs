//! Values exchanged between callers, the gateway and the storage engine.
use vstd::prelude::*;

verus! {

/// Acknowledgement of a completed flush.
#[derive(Clone, Copy, Debug, PartialEq, Eq, Structural)]
pub struct Flushed;

/// Acknowledgement of a completed delete.
#[derive(Clone, Copy, Debug, PartialEq, Eq, Structural)]
pub struct Deleted;

/// The engine's refusal of a write.
#[derive(Clone, Copy, Debug, PartialEq, Eq, Structural)]
pub enum RequestWriteBlockError {
    NoSpaceLeft,
}

/// The engine's refusal of a read.
#[derive(Clone, Copy, Debug, PartialEq, Eq, Structural)]
pub enum RequestReadBlockError {
    NotFound,
}

/// The engine's refusal of a delete.
#[derive(Clone, Copy, Debug, PartialEq, Eq, Structural)]
pub enum RequestDeleteBlockError {
    NotFound,
}

/// The kinds of request a caller can make of the gateway.
#[derive(Clone, Copy, Debug, PartialEq, Eq, Structural)]
pub enum RequestKind {
    Info,
    Flush,
    WriteBlock,
    ReadBlock,
    DeleteBlock,
    IterBlocks,
}

/// The kinds of command the gateway submits to the engine. Every command
/// carries a stamp that the engine hands back in exactly one envelope.
#[derive(Clone, Copy, Debug, PartialEq, Eq, Structural)]
pub enum CommandKind {
    Info,
    Flush,
    WriteBlock,
    ReadBlock,
    DeleteBlock,
    IterBlocksInit,
    IterBlocksNext,
}

/// The correlation envelope in which the engine hands a stamp back: with the
/// command's result, or alone when the engine dropped the command.
#[derive(Debug, PartialEq, Eq)]
pub enum Envelope<T, S> {
    Delivered { inhalt: T, stamp: S },
    Cancelled { stamp: S },
}

impl<T, S> Envelope<T, S> {
    pub open spec fn spec_stamp(self) -> S {
        match self {
            Envelope::Delivered { stamp, .. } => stamp,
            Envelope::Cancelled { stamp } => stamp,
        }
    }
}

/// One item of a block enumeration as the caller receives it: a block, with
/// the engine's identifier `I` and payload `B`, or the end marker.
#[derive(Debug, PartialEq, Eq)]
pub enum IterBlocksItem<I, B> {
    Block { block_id: I, block_bytes: B },
    NoMoreBlocks,
}

/// Marker for the stamps that travel with the engine's commands: a caller's
/// reply destination for a point request, a session's continuation slot for
/// the init and next commands of an enumeration.
#[derive(Clone, Copy, Debug, PartialEq, Eq, Structural)]
pub struct AccessPolicy;

/// The answer to an enumeration request: the totals known when the session
/// began, and the receiving end of the stream of items.
#[derive(Debug, PartialEq, Eq)]
pub struct IterBlocks<R> {
    pub blocks_total_count: usize,
    pub blocks_total_size: usize,
    pub blocks_rx: R,
}

} // verus!
