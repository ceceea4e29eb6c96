//! The request dispatcher: for each request, the one engine command it
//! becomes, or the enumeration session it starts; and the errors that end
//! the dispatcher or a session.
use vstd::prelude::*;
use crate::proto::{CommandKind, RequestKind};

verus! {

/// Why the dispatcher or an enumeration session stopped. `E` is the engine's
/// own error, returned when its command handle refuses a command.
#[derive(Clone, Copy, Debug, PartialEq, Eq)]
pub enum Error<E> {
    RequestInfoBefehl(E),
    RequestFlushBefehl(E),
    RequestWriteBlockBefehl(E),
    RequestReadBlockBefehl(E),
    RequestDeleteBlockBefehl(E),
    RequestIterBlocksInitBefehl(E),
    RequestIterBlocksNextBefehl(E),
    FtdSklaveIsGoneDuringIterBlocksInit,
    FtdSklaveIsGoneDuringIterBlocksNext,
}

/// The error for the engine refusing a command of the given kind.
pub open spec fn refused<E>(kind: CommandKind, e: E) -> Error<E> {
    match kind {
        CommandKind::Info => Error::RequestInfoBefehl(e),
        CommandKind::Flush => Error::RequestFlushBefehl(e),
        CommandKind::WriteBlock => Error::RequestWriteBlockBefehl(e),
        CommandKind::ReadBlock => Error::RequestReadBlockBefehl(e),
        CommandKind::DeleteBlock => Error::RequestDeleteBlockBefehl(e),
        CommandKind::IterBlocksInit => Error::RequestIterBlocksInitBefehl(e),
        CommandKind::IterBlocksNext => Error::RequestIterBlocksNextBefehl(e),
    }
}

impl<E> Error<E> {
    /// The error for the engine refusing a command of the given kind.
    pub fn refused(kind: CommandKind, e: E) -> (r: Error<E>)
        ensures
            r == refused(kind, e),
    {
        match kind {
            CommandKind::Info => Error::RequestInfoBefehl(e),
            CommandKind::Flush => Error::RequestFlushBefehl(e),
            CommandKind::WriteBlock => Error::RequestWriteBlockBefehl(e),
            CommandKind::ReadBlock => Error::RequestReadBlockBefehl(e),
            CommandKind::DeleteBlock => Error::RequestDeleteBlockBefehl(e),
            CommandKind::IterBlocksInit => Error::RequestIterBlocksInitBefehl(e),
            CommandKind::IterBlocksNext => Error::RequestIterBlocksNextBefehl(e),
        }
    }
}

/// Where the dispatcher sends a request.
#[derive(Clone, Copy, Debug, PartialEq, Eq, Structural)]
pub enum Route {
    /// Submit one command of this kind to the engine, stamped with the
    /// request's reply destination.
    Submit(CommandKind),
    /// Start an isolated enumeration session and go on at once.
    SpawnSession,
}

pub open spec fn route_of(kind: RequestKind) -> Route {
    match kind {
        RequestKind::Info => Route::Submit(CommandKind::Info),
        RequestKind::Flush => Route::Submit(CommandKind::Flush),
        RequestKind::WriteBlock => Route::Submit(CommandKind::WriteBlock),
        RequestKind::ReadBlock => Route::Submit(CommandKind::ReadBlock),
        RequestKind::DeleteBlock => Route::Submit(CommandKind::DeleteBlock),
        RequestKind::IterBlocks => Route::SpawnSession,
    }
}

/// Where a request of the given kind goes: every point request becomes the
/// engine command of the same kind; an enumeration request starts a session.
pub fn route(kind: RequestKind) -> (r: Route)
    ensures
        r == route_of(kind),
        (r == Route::SpawnSession) <==> (kind == RequestKind::IterBlocks),
{
    match kind {
        RequestKind::Info => Route::Submit(CommandKind::Info),
        RequestKind::Flush => Route::Submit(CommandKind::Flush),
        RequestKind::WriteBlock => Route::Submit(CommandKind::WriteBlock),
        RequestKind::ReadBlock => Route::Submit(CommandKind::ReadBlock),
        RequestKind::DeleteBlock => Route::Submit(CommandKind::DeleteBlock),
        RequestKind::IterBlocks => Route::SpawnSession,
    }
}

/// What the dispatcher makes of the engine's answer to a submission: it goes
/// on when the command was taken, and stops with the error of the command's
/// kind when the engine's handle refused it. Such a refusal is never retried.
pub fn on_submitted<E>(kind: CommandKind, submitted: Result<(), E>) -> (r: Result<(), Error<E>>)
    ensures
        match submitted {
            Ok(()) => r == Ok::<(), Error<E>>(()),
            Err(e) => r == Err::<(), Error<E>>(refused(kind, e)),
        },
{
    match submitted {
        Ok(()) => Ok(()),
        Err(e) => Err(Error::refused(kind, e)),
    }
}

} // verus!
