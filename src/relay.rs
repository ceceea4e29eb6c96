//! The reply relay: the actor that receives the engine's envelopes and
//! forwards each result to the caller it belongs to.
use vstd::prelude::*;
use crate::proto::{CommandKind, Envelope};

verus! {

/// The relay's world: it keeps no state between envelopes.
#[derive(Clone, Copy, Debug, PartialEq, Eq, Structural)]
pub struct Welt;

/// One message of the relay's mailbox: an envelope and the kind of command
/// that produced it.
#[derive(Debug, PartialEq, Eq)]
pub struct Order<T, S> {
    pub kind: CommandKind,
    pub envelope: Envelope<T, S>,
}

/// Why the relay stopped: the engine dropped a command of the named kind,
/// which means the engine is gone.
#[derive(Clone, Copy, Debug, PartialEq, Eq, Structural)]
pub enum Error {
    GenServerIsLostOnRequestInfo,
    GenServerIsLostOnRequestFlush,
    GenServerIsLostOnRequestWriteBlock,
    GenServerIsLostOnRequestReadBlock,
    GenServerIsLostOnRequestDeleteBlock,
    GenServerIsLostOnRequestIterBlocksInit,
    GenServerIsLostOnRequestIterBlocksNext,
}

/// The error that a cancelled envelope of the given kind raises.
pub open spec fn lost_on(kind: CommandKind) -> Error {
    match kind {
        CommandKind::Info => Error::GenServerIsLostOnRequestInfo,
        CommandKind::Flush => Error::GenServerIsLostOnRequestFlush,
        CommandKind::WriteBlock => Error::GenServerIsLostOnRequestWriteBlock,
        CommandKind::ReadBlock => Error::GenServerIsLostOnRequestReadBlock,
        CommandKind::DeleteBlock => Error::GenServerIsLostOnRequestDeleteBlock,
        CommandKind::IterBlocksInit => Error::GenServerIsLostOnRequestIterBlocksInit,
        CommandKind::IterBlocksNext => Error::GenServerIsLostOnRequestIterBlocksNext,
    }
}

/// The kind of command whose loss an error reports.
pub open spec fn lost_kind(e: Error) -> CommandKind {
    match e {
        Error::GenServerIsLostOnRequestInfo => CommandKind::Info,
        Error::GenServerIsLostOnRequestFlush => CommandKind::Flush,
        Error::GenServerIsLostOnRequestWriteBlock => CommandKind::WriteBlock,
        Error::GenServerIsLostOnRequestReadBlock => CommandKind::ReadBlock,
        Error::GenServerIsLostOnRequestDeleteBlock => CommandKind::DeleteBlock,
        Error::GenServerIsLostOnRequestIterBlocksInit => CommandKind::IterBlocksInit,
        Error::GenServerIsLostOnRequestIterBlocksNext => CommandKind::IterBlocksNext,
    }
}

/// How the engine echoes every command: as an envelope that comes back, with
/// its stamp, in the relay's mailbox; a cancelled echo means the engine is
/// lost while a command of its kind was outstanding.
#[derive(Clone, Copy, Debug, PartialEq, Eq, Structural)]
pub struct EchoPolicy;

impl EchoPolicy {
    /// The error that a cancelled envelope of the given kind raises.
    pub fn lost_on(kind: CommandKind) -> (e: Error)
        ensures
            e == lost_on(kind),
            lost_kind(e) == kind,
    {
        match kind {
            CommandKind::Info => Error::GenServerIsLostOnRequestInfo,
            CommandKind::Flush => Error::GenServerIsLostOnRequestFlush,
            CommandKind::WriteBlock => Error::GenServerIsLostOnRequestWriteBlock,
            CommandKind::ReadBlock => Error::GenServerIsLostOnRequestReadBlock,
            CommandKind::DeleteBlock => Error::GenServerIsLostOnRequestDeleteBlock,
            CommandKind::IterBlocksInit => Error::GenServerIsLostOnRequestIterBlocksInit,
            CommandKind::IterBlocksNext => Error::GenServerIsLostOnRequestIterBlocksNext,
        }
    }
}

/// What becomes of one envelope.
pub open spec fn handled<T, S>(order: Order<T, S>) -> Result<(T, S), Error> {
    match order.envelope {
        Envelope::Delivered { inhalt, stamp } => Ok((inhalt, stamp)),
        Envelope::Cancelled { .. } => Err(lost_on(order.kind)),
    }
}

impl Welt {
    /// Decides what becomes of one envelope: a delivered result goes, with its
    /// stamp untouched, to the caller the stamp names; a cancelled one stops
    /// the relay with the error of its kind.
    pub fn handle<T, S>(&self, order: Order<T, S>) -> (r: Result<(T, S), Error>)
        ensures
            r == handled(order),
    {
        match order.envelope {
            Envelope::Delivered { inhalt, stamp } => Ok((inhalt, stamp)),
            Envelope::Cancelled { stamp: _ } => Err(EchoPolicy::lost_on(order.kind)),
        }
    }
}

} // verus!
