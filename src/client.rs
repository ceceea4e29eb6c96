//! The caller's side of a point request: what a caller makes of the reply,
//! or of its loss. A reply lost because the dispatcher and relay were being
//! restarted is no answer: the caller sends the whole request again.
use vstd::prelude::*;
use crate::proto::{
    Deleted, Flushed, IterBlocks, RequestDeleteBlockError, RequestReadBlockError,
    RequestWriteBlockError,
};

verus! {

/// Why a write failed.
#[derive(Clone, Copy, Debug, PartialEq, Eq)]
pub enum WriteBlockError {
    /// The gateway no longer takes requests.
    GenServer(ero::NoProcError),
    /// The engine has no room for the block.
    NoSpaceLeft,
}

/// Why a read failed.
#[derive(Clone, Copy, Debug, PartialEq, Eq)]
pub enum ReadBlockError {
    /// The gateway no longer takes requests.
    GenServer(ero::NoProcError),
    /// The engine holds no block of that id.
    NotFound,
}

/// Why a delete failed.
#[derive(Clone, Copy, Debug, PartialEq, Eq)]
pub enum DeleteBlockError {
    /// The gateway no longer takes requests.
    GenServer(ero::NoProcError),
    /// The engine holds no block of that id.
    NotFound,
}

/// Why an enumeration could not start.
#[derive(Clone, Copy, Debug, PartialEq, Eq)]
pub enum IterBlocksError {
    /// The gateway no longer takes requests.
    GenServer(ero::NoProcError),
}

/// What a caller does once its reply slot has resolved.
#[derive(Debug, PartialEq, Eq)]
pub enum CallStep<T, E> {
    /// The reply was lost: send the request again.
    Retry,
    /// The call is over with this result.
    Done(Result<T, E>),
}

/// A reply that cannot fail: lost means retry, received means done.
pub open spec fn answer_step<T, E>(reply: Option<T>) -> CallStep<T, E> {
    match reply {
        Some(t) => CallStep::Done(Ok(t)),
        None => CallStep::Retry,
    }
}

pub open spec fn write_block_step<I>(reply: Option<Result<I, RequestWriteBlockError>>) -> CallStep<I, WriteBlockError> {
    match reply {
        Some(Ok(block_id)) => CallStep::Done(Ok(block_id)),
        Some(Err(RequestWriteBlockError::NoSpaceLeft)) => CallStep::Done(Err(WriteBlockError::NoSpaceLeft)),
        None => CallStep::Retry,
    }
}

pub open spec fn read_block_step<B>(reply: Option<Result<B, RequestReadBlockError>>) -> CallStep<B, ReadBlockError> {
    match reply {
        Some(Ok(block_bytes)) => CallStep::Done(Ok(block_bytes)),
        Some(Err(RequestReadBlockError::NotFound)) => CallStep::Done(Err(ReadBlockError::NotFound)),
        None => CallStep::Retry,
    }
}

pub open spec fn delete_block_step(reply: Option<Result<Deleted, RequestDeleteBlockError>>) -> CallStep<Deleted, DeleteBlockError> {
    match reply {
        Some(Ok(deleted)) => CallStep::Done(Ok(deleted)),
        Some(Err(RequestDeleteBlockError::NotFound)) => CallStep::Done(Err(DeleteBlockError::NotFound)),
        None => CallStep::Retry,
    }
}

/// The step after an info request; `None` is a lost reply.
pub fn info_reply<I>(reply: Option<I>) -> (r: CallStep<I, ero::NoProcError>)
    ensures
        r == answer_step::<I, ero::NoProcError>(reply),
{
    match reply {
        Some(info) => CallStep::Done(Ok(info)),
        None => CallStep::Retry,
    }
}

/// The step after a flush request; `None` is a lost reply.
pub fn flush_reply(reply: Option<Flushed>) -> (r: CallStep<Flushed, ero::NoProcError>)
    ensures
        r == answer_step::<Flushed, ero::NoProcError>(reply),
{
    match reply {
        Some(flushed) => CallStep::Done(Ok(flushed)),
        None => CallStep::Retry,
    }
}

/// The step after a write request: the engine's id or its refusal is the
/// answer; `None` is a lost reply.
pub fn write_block_reply<I>(reply: Option<Result<I, RequestWriteBlockError>>) -> (r: CallStep<I, WriteBlockError>)
    ensures
        r == write_block_step(reply),
{
    match reply {
        Some(Ok(block_id)) => CallStep::Done(Ok(block_id)),
        Some(Err(RequestWriteBlockError::NoSpaceLeft)) => CallStep::Done(Err(WriteBlockError::NoSpaceLeft)),
        None => CallStep::Retry,
    }
}

/// The step after a read request: the engine's bytes, untouched, or its
/// refusal is the answer; `None` is a lost reply.
pub fn read_block_reply<B>(reply: Option<Result<B, RequestReadBlockError>>) -> (r: CallStep<B, ReadBlockError>)
    ensures
        r == read_block_step(reply),
{
    match reply {
        Some(Ok(block_bytes)) => CallStep::Done(Ok(block_bytes)),
        Some(Err(RequestReadBlockError::NotFound)) => CallStep::Done(Err(ReadBlockError::NotFound)),
        None => CallStep::Retry,
    }
}

/// The step after a delete request: the engine's acknowledgement or its
/// refusal is the answer; `None` is a lost reply.
pub fn delete_block_reply(reply: Option<Result<Deleted, RequestDeleteBlockError>>) -> (r: CallStep<Deleted, DeleteBlockError>)
    ensures
        r == delete_block_step(reply),
{
    match reply {
        Some(Ok(deleted)) => CallStep::Done(Ok(deleted)),
        Some(Err(RequestDeleteBlockError::NotFound)) => CallStep::Done(Err(DeleteBlockError::NotFound)),
        None => CallStep::Retry,
    }
}

/// The step after an enumeration request: the session handle is the answer;
/// `None` is a lost reply.
pub fn iter_blocks_reply<R>(reply: Option<IterBlocks<R>>) -> (r: CallStep<IterBlocks<R>, IterBlocksError>)
    ensures
        r == answer_step::<IterBlocks<R>, IterBlocksError>(reply),
{
    match reply {
        Some(iter_blocks) => CallStep::Done(Ok(iter_blocks)),
        None => CallStep::Retry,
    }
}

} // verus!
