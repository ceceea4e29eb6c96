//! The supervisor's restart discipline for the dispatcher and relay, which
//! live and die as a pair, and the laws that tie the pieces together.
use vstd::prelude::*;
use crate::proto::{
    CommandKind, Deleted, Envelope, RequestDeleteBlockError, RequestReadBlockError,
    RequestWriteBlockError,
};
use crate::relay::{self, handled, lost_on, Order};
use crate::dispatcher;
use crate::client::{
    answer_step, delete_block_step, read_block_step, write_block_step, CallStep, DeleteBlockError,
    ReadBlockError, WriteBlockError,
};

verus! {

/// How the dispatcher and relay pair ended.
#[derive(Debug, PartialEq, Eq)]
pub enum PairExit<E> {
    /// Every caller is gone and the request stream is exhausted.
    RequestsDepleted,
    /// The engine or the relay could not be started.
    StartFailed,
    /// The dispatcher stopped on a fatal error.
    Dispatcher(dispatcher::Error<E>),
    /// The relay saw a cancelled envelope: the engine is lost.
    Relay(relay::Error),
}

/// What the supervisor does when the pair ends.
#[derive(Clone, Copy, Debug, PartialEq, Eq, Structural)]
pub enum Decision {
    /// The gateway shuts down.
    Terminate,
    /// The pair, with its connection to the engine, is torn down and built
    /// afresh from the parameters it was first built with.
    Restart,
}

pub open spec fn decision_of<E>(exit: PairExit<E>) -> Decision {
    match exit {
        PairExit::Dispatcher(_) | PairExit::Relay(_) => Decision::Restart,
        _ => Decision::Terminate,
    }
}

/// The supervisor's decision: any fatal error of the running pair restarts it;
/// an exhausted request stream is a clean end, and a pair that could not even
/// start is not started again.
pub fn decide<E>(exit: &PairExit<E>) -> (r: Decision)
    ensures
        r == decision_of(*exit),
{
    match exit {
        PairExit::Dispatcher(_) | PairExit::Relay(_) => Decision::Restart,
        _ => Decision::Terminate,
    }
}

/// When the engine drops a command of any kind, the relay stops with the
/// loss of that kind, the supervisor restarts the pair, a caller whose reply
/// was lost with the old pair sends its request again, and the answer from
/// the rebuilt pair is what that caller gets. A refusal by the engine's
/// handle restarts the pair as well.
pub proof fn lemma_engine_loss_restarts<T, S, E, I>(kind: CommandKind, stamp: S, fresh: I, e: E)
    ensures
        handled(Order::<T, S> { kind, envelope: Envelope::Cancelled { stamp } }) == Err::<(T, S), relay::Error>(lost_on(kind)),
        decision_of(PairExit::<E>::Relay(lost_on(kind))) == Decision::Restart,
        decision_of(PairExit::<E>::Dispatcher(dispatcher::refused(kind, e))) == Decision::Restart,
        answer_step::<I, ero::NoProcError>(None) == CallStep::<I, ero::NoProcError>::Retry,
        answer_step::<I, ero::NoProcError>(Some(fresh)) == CallStep::<I, ero::NoProcError>::Done(Ok(fresh)),
        write_block_step::<T>(None) is Retry,
        read_block_step::<T>(None) is Retry,
        delete_block_step(None) is Retry,
{
}

/// The gateway hands block contents back untouched: the id the engine gives a
/// written block, and the bytes it gives for a read, pass through the relay
/// with their stamps and reach the caller unchanged.
pub proof fn lemma_round_trip_transparent<I, B, S>(block_id: I, block_bytes: B, write_stamp: S, read_stamp: S)
    ensures
        handled(Order { kind: CommandKind::WriteBlock, envelope: Envelope::Delivered { inhalt: Ok::<I, RequestWriteBlockError>(block_id), stamp: write_stamp } })
            == Ok::<(Result<I, RequestWriteBlockError>, S), relay::Error>((Ok(block_id), write_stamp)),
        write_block_step(Some(Ok::<I, RequestWriteBlockError>(block_id))) == CallStep::<I, WriteBlockError>::Done(Ok(block_id)),
        handled(Order { kind: CommandKind::ReadBlock, envelope: Envelope::Delivered { inhalt: Ok::<B, RequestReadBlockError>(block_bytes), stamp: read_stamp } })
            == Ok::<(Result<B, RequestReadBlockError>, S), relay::Error>((Ok(block_bytes), read_stamp)),
        read_block_step(Some(Ok::<B, RequestReadBlockError>(block_bytes))) == CallStep::<B, ReadBlockError>::Done(Ok(block_bytes)),
{
}

/// The engine's "not found", for a read or a delete, reaches the caller as a
/// not-found error and never as anything else.
pub proof fn lemma_not_found_reaches_caller<B, S>(stamp: S)
    ensures
        handled(Order { kind: CommandKind::DeleteBlock, envelope: Envelope::Delivered { inhalt: Err::<Deleted, RequestDeleteBlockError>(RequestDeleteBlockError::NotFound), stamp } })
            == Ok::<(Result<Deleted, RequestDeleteBlockError>, S), relay::Error>((Err(RequestDeleteBlockError::NotFound), stamp)),
        delete_block_step(Some(Err(RequestDeleteBlockError::NotFound))) == CallStep::<Deleted, DeleteBlockError>::Done(Err(DeleteBlockError::NotFound)),
        handled(Order { kind: CommandKind::ReadBlock, envelope: Envelope::Delivered { inhalt: Err::<B, RequestReadBlockError>(RequestReadBlockError::NotFound), stamp } })
            == Ok::<(Result<B, RequestReadBlockError>, S), relay::Error>((Err(RequestReadBlockError::NotFound), stamp)),
        read_block_step(Some(Err::<B, RequestReadBlockError>(RequestReadBlockError::NotFound))) == CallStep::<B, ReadBlockError>::Done(Err(ReadBlockError::NotFound)),
{
}

} // verus!
