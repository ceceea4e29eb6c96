//! The block enumeration session: one isolated run of the init / next
//! protocol against the engine for a single enumeration request, which
//! republishes the engine's blocks, in the engine's order, on a rendezvous
//! channel to the caller.
//!
//! The session is a state machine. Each action it returns is carried out by
//! the task that runs it, which then hands back the event that came of it.
use vstd::prelude::*;
use crate::proto::IterBlocksItem;
use crate::dispatcher::Error;

verus! {

/// Where a session stands. `C` is the engine's enumeration cursor.
#[derive(Debug, PartialEq, Eq)]
pub enum SessionState<C> {
    /// The init command is submitted; its answer is awaited.
    AwaitingInit,
    /// The session handle is offered to the caller; the cursor waits.
    Replying { cursor: C },
    /// A next command is submitted; its answer is awaited.
    AwaitingNext,
    /// A block is offered on the stream; the cursor waits.
    Publishing { cursor: C },
    /// The end-of-stream marker is offered on the stream.
    Closing,
    /// The session is over.
    Done,
}

/// What came of the session's last action. `B` is the block payload and `E`
/// the engine's error.
#[derive(Debug, PartialEq, Eq)]
pub enum SessionEvent<C, I, B, E> {
    /// The engine's handle refused the init command.
    InitRefused { error: E },
    /// The engine dropped the init command.
    InitCancelled,
    /// The engine answered the init command.
    InitReady { blocks_total_count: usize, blocks_total_size: usize, cursor: C },
    /// The caller took the session handle.
    ReplyTaken,
    /// The caller had abandoned the request.
    ReplyRefused,
    /// The engine's handle refused a next command.
    NextRefused { error: E },
    /// The engine dropped a next command.
    NextCancelled,
    /// The engine answered a next command with a block and a new cursor.
    NextBlock { block_id: I, block_bytes: B, cursor: C },
    /// The engine answered a next command: there are no more blocks.
    NextNoMore,
    /// The caller received the item on offer.
    ItemTaken,
    /// The caller's receiving end is gone.
    ItemRefused,
}

/// What the session asks of the task that runs it.
#[derive(Debug, PartialEq, Eq)]
pub enum SessionAction<C, I, B, E> {
    /// Submit the init command to the engine.
    SubmitInit,
    /// Open the stream and give the caller its session handle.
    Reply { blocks_total_count: usize, blocks_total_size: usize },
    /// Submit a next command with this cursor.
    SubmitNext { cursor: C },
    /// Offer this item on the stream.
    Publish { item: IterBlocksItem<I, B> },
    /// End the session with this outcome.
    Finish { outcome: Result<(), Error<E>> },
}

/// The events that a session in state `s` can meet.
pub open spec fn accepts<C, I, B, E>(s: SessionState<C>, e: SessionEvent<C, I, B, E>) -> bool {
    match s {
        SessionState::AwaitingInit => e is InitRefused || e is InitCancelled || e is InitReady,
        SessionState::Replying { .. } => e is ReplyTaken || e is ReplyRefused,
        SessionState::AwaitingNext => e is NextRefused || e is NextCancelled || e is NextBlock
            || e is NextNoMore,
        SessionState::Publishing { .. } => e is ItemTaken || e is ItemRefused,
        SessionState::Closing => e is ItemTaken || e is ItemRefused,
        SessionState::Done => false,
    }
}

pub open spec fn finish<C, I, B, E>(outcome: Result<(), Error<E>>) -> (SessionState<C>, SessionAction<C, I, B, E>) {
    (SessionState::Done, SessionAction::Finish { outcome })
}

/// The session's transition: the next state and the action it asks for.
pub open spec fn next<C, I, B, E>(s: SessionState<C>, e: SessionEvent<C, I, B, E>) -> (SessionState<C>, SessionAction<C, I, B, E>)
    recommends
        accepts(s, e),
{
    match s {
        SessionState::AwaitingInit => match e {
            SessionEvent::InitRefused { error } => finish(Err(Error::RequestIterBlocksInitBefehl(error))),
            SessionEvent::InitReady { blocks_total_count, blocks_total_size, cursor } => (
                SessionState::Replying { cursor },
                SessionAction::Reply { blocks_total_count, blocks_total_size },
            ),
            _ => finish(Err(Error::FtdSklaveIsGoneDuringIterBlocksInit)),
        },
        SessionState::Replying { cursor } => match e {
            SessionEvent::ReplyTaken => (SessionState::AwaitingNext, SessionAction::SubmitNext { cursor }),
            _ => finish(Ok(())),
        },
        SessionState::AwaitingNext => match e {
            SessionEvent::NextRefused { error } => finish(Err(Error::RequestIterBlocksNextBefehl(error))),
            SessionEvent::NextBlock { block_id, block_bytes, cursor } => (
                SessionState::Publishing { cursor },
                SessionAction::Publish { item: IterBlocksItem::Block { block_id, block_bytes } },
            ),
            SessionEvent::NextNoMore => (
                SessionState::Closing,
                SessionAction::Publish { item: IterBlocksItem::NoMoreBlocks },
            ),
            _ => finish(Err(Error::FtdSklaveIsGoneDuringIterBlocksNext)),
        },
        SessionState::Publishing { cursor } => match e {
            SessionEvent::ItemTaken => (SessionState::AwaitingNext, SessionAction::SubmitNext { cursor }),
            _ => finish(Ok(())),
        },
        _ => finish(Ok(())),
    }
}

impl<C> SessionState<C> {
    /// Starts a session: it first submits the init command.
    pub fn start<I, B, E>() -> (r: (SessionState<C>, SessionAction<C, I, B, E>))
        ensures
            r == (SessionState::<C>::AwaitingInit, SessionAction::<C, I, B, E>::SubmitInit),
    {
        (SessionState::AwaitingInit, SessionAction::SubmitInit)
    }

    /// Whether the session, as it stands, can meet this event.
    pub fn expects<I, B, E>(&self, e: &SessionEvent<C, I, B, E>) -> (r: bool)
        ensures
            r == accepts(*self, *e),
    {
        match self {
            SessionState::AwaitingInit => match e {
                SessionEvent::InitRefused { .. } | SessionEvent::InitCancelled
                | SessionEvent::InitReady { .. } => true,
                _ => false,
            },
            SessionState::Replying { .. } => match e {
                SessionEvent::ReplyTaken | SessionEvent::ReplyRefused => true,
                _ => false,
            },
            SessionState::AwaitingNext => match e {
                SessionEvent::NextRefused { .. } | SessionEvent::NextCancelled
                | SessionEvent::NextBlock { .. } | SessionEvent::NextNoMore => true,
                _ => false,
            },
            SessionState::Publishing { .. } | SessionState::Closing => match e {
                SessionEvent::ItemTaken | SessionEvent::ItemRefused => true,
                _ => false,
            },
            SessionState::Done => false,
        }
    }

    /// Moves the session on by one event.
    pub fn step<I, B, E>(self, e: SessionEvent<C, I, B, E>) -> (r: (SessionState<C>, SessionAction<C, I, B, E>))
        requires
            accepts(self, e),
        ensures
            r == next(self, e),
    {
        match self {
            SessionState::AwaitingInit => match e {
                SessionEvent::InitRefused { error } => (
                    SessionState::Done,
                    SessionAction::Finish { outcome: Err(Error::RequestIterBlocksInitBefehl(error)) },
                ),
                SessionEvent::InitReady { blocks_total_count, blocks_total_size, cursor } => (
                    SessionState::Replying { cursor },
                    SessionAction::Reply { blocks_total_count, blocks_total_size },
                ),
                _ => (
                    SessionState::Done,
                    SessionAction::Finish { outcome: Err(Error::FtdSklaveIsGoneDuringIterBlocksInit) },
                ),
            },
            SessionState::Replying { cursor } => match e {
                SessionEvent::ReplyTaken => (SessionState::AwaitingNext, SessionAction::SubmitNext { cursor }),
                _ => (SessionState::Done, SessionAction::Finish { outcome: Ok(()) }),
            },
            SessionState::AwaitingNext => match e {
                SessionEvent::NextRefused { error } => (
                    SessionState::Done,
                    SessionAction::Finish { outcome: Err(Error::RequestIterBlocksNextBefehl(error)) },
                ),
                SessionEvent::NextBlock { block_id, block_bytes, cursor } => (
                    SessionState::Publishing { cursor },
                    SessionAction::Publish { item: IterBlocksItem::Block { block_id, block_bytes } },
                ),
                SessionEvent::NextNoMore => (
                    SessionState::Closing,
                    SessionAction::Publish { item: IterBlocksItem::NoMoreBlocks },
                ),
                _ => (
                    SessionState::Done,
                    SessionAction::Finish { outcome: Err(Error::FtdSklaveIsGoneDuringIterBlocksNext) },
                ),
            },
            SessionState::Publishing { cursor } => match e {
                SessionEvent::ItemTaken => (SessionState::AwaitingNext, SessionAction::SubmitNext { cursor }),
                _ => (SessionState::Done, SessionAction::Finish { outcome: Ok(()) }),
            },
            _ => (SessionState::Done, SessionAction::Finish { outcome: Ok(()) }),
        }
    }
}

/// The state reached, and the actions asked for in order, when the session
/// meets the events one after another.
pub open spec fn run<C, I, B, E>(s: SessionState<C>, events: Seq<SessionEvent<C, I, B, E>>) -> (SessionState<C>, Seq<SessionAction<C, I, B, E>>)
    decreases events.len(),
{
    if events.len() == 0 {
        (s, Seq::empty())
    } else {
        let (s1, a) = next(s, events[0]);
        let (s2, rest) = run(s1, events.drop_first());
        (s2, seq![a] + rest)
    }
}

/// The items that a sequence of actions offers on the stream, in order.
pub open spec fn published<C, I, B, E>(actions: Seq<SessionAction<C, I, B, E>>) -> Seq<IterBlocksItem<I, B>>
    decreases actions.len(),
{
    if actions.len() == 0 {
        Seq::empty()
    } else {
        offered(actions[0]) + published(actions.drop_first())
    }
}

/// The item that one action offers on the stream, if any.
pub open spec fn offered<C, I, B, E>(a: SessionAction<C, I, B, E>) -> Seq<IterBlocksItem<I, B>> {
    match a {
        SessionAction::Publish { item } => seq![item],
        _ => Seq::empty(),
    }
}

/// The events of the next-loop when the engine yields `blocks` (each an id,
/// its payload and the cursor that comes with it) and then reports the end,
/// and the caller takes every item.
pub open spec fn walk<C, I, B, E>(blocks: Seq<(I, B, C)>) -> Seq<SessionEvent<C, I, B, E>>
    decreases blocks.len(),
{
    if blocks.len() == 0 {
        seq![SessionEvent::NextNoMore, SessionEvent::ItemTaken]
    } else {
        seq![
            SessionEvent::NextBlock { block_id: blocks[0].0, block_bytes: blocks[0].1, cursor: blocks[0].2 },
            SessionEvent::ItemTaken,
        ] + walk(blocks.drop_first())
    }
}

/// The stream items that stand for the engine's blocks.
pub open spec fn block_items<C, I, B>(blocks: Seq<(I, B, C)>) -> Seq<IterBlocksItem<I, B>> {
    blocks.map_values(|b: (I, B, C)| IterBlocksItem::Block { block_id: b.0, block_bytes: b.1 })
}

proof fn lemma_run_two<C, I, B, E>(
    s: SessionState<C>,
    e1: SessionEvent<C, I, B, E>,
    e2: SessionEvent<C, I, B, E>,
    rest: Seq<SessionEvent<C, I, B, E>>,
)
    ensures
        ({
            let (s1, a1) = next(s, e1);
            let (s2, a2) = next(s1, e2);
            let (s3, acts) = run(s2, rest);
            run(s, seq![e1, e2] + rest) == (s3, seq![a1, a2] + acts)
        }),
{
    let all = seq![e1, e2] + rest;
    assert(all.drop_first() =~= seq![e2] + rest);
    assert((seq![e2] + rest).drop_first() =~= rest);
    let (s1, a1) = next(s, e1);
    let (s2, a2) = next(s1, e2);
    let (s3, acts) = run(s2, rest);
    assert(run(s1, seq![e2] + rest) == (s3, seq![a2] + acts));
    assert(seq![a1] + (seq![a2] + acts) =~= seq![a1, a2] + acts);
}

proof fn lemma_published_two<C, I, B, E>(
    a1: SessionAction<C, I, B, E>,
    a2: SessionAction<C, I, B, E>,
    rest: Seq<SessionAction<C, I, B, E>>,
)
    ensures
        published(seq![a1, a2] + rest) == offered(a1) + offered(a2) + published(rest),
{
    let all = seq![a1, a2] + rest;
    assert(all.drop_first() =~= seq![a2] + rest);
    assert((seq![a2] + rest).drop_first() =~= rest);
    assert(published(seq![a2] + rest) == offered(a2) + published(rest));
    assert(offered(a1) + (offered(a2) + published(rest)) =~= offered(a1) + offered(a2) + published(rest));
}

proof fn lemma_walk<C, I, B, E>(blocks: Seq<(I, B, C)>)
    ensures
        ({
            let (s, acts) = run(SessionState::<C>::AwaitingNext, walk::<C, I, B, E>(blocks));
            &&& s == SessionState::<C>::Done
            &&& acts.len() >= 2
            &&& published(acts) == block_items(blocks).push(IterBlocksItem::NoMoreBlocks)
            &&& acts.last() == SessionAction::<C, I, B, E>::Finish { outcome: Ok(()) }
        }),
    decreases blocks.len(),
{
    let start = SessionState::<C>::AwaitingNext;
    if blocks.len() == 0 {
        let events = walk::<C, I, B, E>(blocks);
        lemma_run_two(start, SessionEvent::<C, I, B, E>::NextNoMore, SessionEvent::<C, I, B, E>::ItemTaken, Seq::empty());
        assert(events =~= seq![SessionEvent::NextNoMore, SessionEvent::ItemTaken] + Seq::empty());
        let (s, acts) = run(start, events);
        lemma_published_two(acts[0], acts[1], Seq::empty());
        assert(acts =~= seq![acts[0], acts[1]] + Seq::empty());
        assert(published(Seq::<SessionAction<C, I, B, E>>::empty()) =~= Seq::empty());
        assert(published(acts) =~= block_items(blocks).push(IterBlocksItem::NoMoreBlocks));
    } else {
        let b = blocks[0];
        let tail = blocks.drop_first();
        let e1 = SessionEvent::<C, I, B, E>::NextBlock { block_id: b.0, block_bytes: b.1, cursor: b.2 };
        let e2 = SessionEvent::<C, I, B, E>::ItemTaken;
        lemma_walk::<C, I, B, E>(tail);
        lemma_run_two(start, e1, e2, walk::<C, I, B, E>(tail));
        let (s3, rest) = run(start, walk::<C, I, B, E>(tail));
        let a1 = SessionAction::<C, I, B, E>::Publish { item: IterBlocksItem::Block { block_id: b.0, block_bytes: b.1 } };
        let a2 = SessionAction::<C, I, B, E>::SubmitNext { cursor: b.2 };
        let acts = seq![a1, a2] + rest;
        assert(run(start, walk::<C, I, B, E>(blocks)) == (s3, acts));
        lemma_published_two(a1, a2, rest);
        assert(block_items(blocks) =~= seq![IterBlocksItem::Block { block_id: b.0, block_bytes: b.1 }] + block_items(tail));
        assert(published(acts) =~= block_items(blocks).push(IterBlocksItem::NoMoreBlocks));
        assert(acts.last() == rest.last());
    }
}

/// A whole enumeration in which the engine answers the init command with the
/// totals and a first cursor, then yields `blocks` one by one and reports the
/// end, while the caller takes the handle and every item: the caller gets the
/// totals first, the first next command carries the first cursor, the stream
/// carries every one of the engine's blocks exactly once and in the engine's
/// order followed by the end marker, and the session ends without error.
pub proof fn lemma_enumeration_complete<C, I, B, E>(
    blocks_total_count: usize,
    blocks_total_size: usize,
    first: C,
    blocks: Seq<(I, B, C)>,
)
    ensures
        ({
            let events = seq![
                SessionEvent::<C, I, B, E>::InitReady { blocks_total_count, blocks_total_size, cursor: first },
                SessionEvent::<C, I, B, E>::ReplyTaken,
            ] + walk::<C, I, B, E>(blocks);
            let (s, acts) = run(SessionState::<C>::AwaitingInit, events);
            &&& s == SessionState::<C>::Done
            &&& acts.len() >= 4
            &&& acts[0] == SessionAction::<C, I, B, E>::Reply { blocks_total_count, blocks_total_size }
            &&& acts[1] == SessionAction::<C, I, B, E>::SubmitNext { cursor: first }
            &&& published(acts) == block_items(blocks).push(IterBlocksItem::NoMoreBlocks)
            &&& acts.last() == SessionAction::<C, I, B, E>::Finish { outcome: Ok(()) }
        }),
{
    let e1 = SessionEvent::<C, I, B, E>::InitReady { blocks_total_count, blocks_total_size, cursor: first };
    let e2 = SessionEvent::<C, I, B, E>::ReplyTaken;
    lemma_walk::<C, I, B, E>(blocks);
    lemma_run_two(SessionState::<C>::AwaitingInit, e1, e2, walk::<C, I, B, E>(blocks));
    let (s3, rest) = run(SessionState::<C>::AwaitingNext, walk::<C, I, B, E>(blocks));
    let a1 = SessionAction::<C, I, B, E>::Reply { blocks_total_count, blocks_total_size };
    let a2 = SessionAction::<C, I, B, E>::SubmitNext { cursor: first };
    lemma_published_two(a1, a2, rest);
    assert(offered(a1) + offered(a2) + published(rest) =~= published(rest));
    let acts = seq![a1, a2] + rest;
    assert(acts.last() == rest.last());
}

/// When the caller's receiving end is gone, the session ends at once, without
/// error and without another engine command, whether a block or the end
/// marker was on offer; and an ended session takes no further event.
pub proof fn lemma_receiver_drop_ends_session<C, I, B, E>(s: SessionState<C>)
    requires
        s is Publishing || s is Closing,
    ensures
        next(s, SessionEvent::<C, I, B, E>::ItemRefused) == (
            SessionState::<C>::Done,
            SessionAction::<C, I, B, E>::Finish { outcome: Ok(()) },
        ),
        forall|e: SessionEvent<C, I, B, E>| !accepts(SessionState::<C>::Done, e),
{
}

} // verus!
