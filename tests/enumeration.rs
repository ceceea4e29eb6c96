use ero_blockwheel_fs::dispatcher::Error;
use ero_blockwheel_fs::proto::{IterBlocksItem};
use ero_blockwheel_fs::session::{SessionAction, SessionEvent, SessionState};

type Event = SessionEvent<usize, u64, Vec<u8>, &'static str>;
type Action = SessionAction<usize, u64, Vec<u8>, &'static str>;

/// A store of blocks as an engine would enumerate them; the cursor is the
/// index of the next block.
struct Store {
    blocks: Vec<(u64, Vec<u8>)>,
}

impl Store {
    fn write(&mut self, bytes: Vec<u8>) -> u64 {
        let id = self.blocks.len() as u64 + 1;
        self.blocks.push((id, bytes));
        id
    }

    fn next(&self, cursor: usize) -> Event {
        match self.blocks.get(cursor) {
            Some((id, bytes)) => SessionEvent::NextBlock { block_id: *id, block_bytes: bytes.clone(), cursor: cursor + 1 },
            None => SessionEvent::NextNoMore,
        }
    }
}

/// Runs a session against the store with a caller that takes the first
/// `takes` stream items and then drops its receiver. Returns the handle the
/// caller got, the items it received and the session's outcome.
fn drive(store: &Store, takes: usize) -> (Option<(usize, usize)>, Vec<IterBlocksItem<u64, Vec<u8>>>, Result<(), Error<&'static str>>) {
    let (mut state, mut action) = SessionState::<usize>::start::<u64, Vec<u8>, &'static str>();
    let mut handle = None;
    let mut received = Vec::new();
    loop {
        let event: Event = match action {
            SessionAction::SubmitInit => SessionEvent::InitReady {
                blocks_total_count: store.blocks.len(),
                blocks_total_size: store.blocks.iter().map(|(_, b)| b.len()).sum(),
                cursor: 0,
            },
            SessionAction::Reply { blocks_total_count, blocks_total_size } => {
                handle = Some((blocks_total_count, blocks_total_size));
                SessionEvent::ReplyTaken
            },
            SessionAction::SubmitNext { cursor } => store.next(cursor),
            SessionAction::Publish { item } => {
                if received.len() < takes {
                    received.push(item);
                    SessionEvent::ItemTaken
                } else {
                    SessionEvent::ItemRefused
                }
            },
            SessionAction::Finish { outcome } => return (handle, received, outcome),
        };
        assert!(state.expects(&event));
        let (s, a) = state.step(event);
        state = s;
        action = a;
    }
}

#[test]
fn three_blocks_enumerated_with_totals() {
    let mut store = Store { blocks: Vec::new() };
    let a = store.write(vec![1u8; 10]);
    let b = store.write(vec![2u8; 20]);
    let c = store.write(vec![3u8; 30]);
    let (handle, received, outcome) = drive(&store, usize::MAX);
    assert_eq!(handle, Some((3, 60)));
    assert_eq!(received.len(), 4);
    assert_eq!(received[0], IterBlocksItem::Block { block_id: a, block_bytes: vec![1u8; 10] });
    assert_eq!(received[1], IterBlocksItem::Block { block_id: b, block_bytes: vec![2u8; 20] });
    assert_eq!(received[2], IterBlocksItem::Block { block_id: c, block_bytes: vec![3u8; 30] });
    assert_eq!(received[3], IterBlocksItem::NoMoreBlocks);
    assert_eq!(outcome, Ok(()));
}

#[test]
fn every_block_once_in_engine_order() {
    let mut store = Store { blocks: Vec::new() };
    let ids: Vec<u64> = (0..7u8).map(|i| store.write(vec![i; i as usize + 1])).collect();
    let (_, received, outcome) = drive(&store, usize::MAX);
    let got: Vec<u64> = received
        .iter()
        .filter_map(|item| match item {
            IterBlocksItem::Block { block_id, .. } => Some(*block_id),
            IterBlocksItem::NoMoreBlocks => None,
        })
        .collect();
    assert_eq!(got, ids);
    assert_eq!(received.last(), Some(&IterBlocksItem::NoMoreBlocks));
    assert_eq!(outcome, Ok(()));
}

#[test]
fn empty_store_yields_only_end_marker() {
    let store = Store { blocks: Vec::new() };
    let (handle, received, outcome) = drive(&store, usize::MAX);
    assert_eq!(handle, Some((0, 0)));
    assert_eq!(received, vec![IterBlocksItem::NoMoreBlocks]);
    assert_eq!(outcome, Ok(()));
}

#[test]
fn dropped_receiver_ends_session_quietly() {
    let mut store = Store { blocks: Vec::new() };
    for i in 0..5u8 {
        store.write(vec![i; 4]);
    }
    let (_, received, outcome) = drive(&store, 2);
    assert_eq!(received.len(), 2);
    assert_eq!(outcome, Ok(()));
}

#[test]
fn dropped_receiver_on_end_marker_is_no_error() {
    let mut store = Store { blocks: Vec::new() };
    store.write(vec![9u8; 3]);
    let (_, received, outcome) = drive(&store, 1);
    assert_eq!(received.len(), 1);
    assert_eq!(outcome, Ok(()));
}

#[test]
fn abandoned_request_ends_session_at_init() {
    let (state, _) = SessionState::<usize>::start::<u64, Vec<u8>, &str>();
    let (state, action) = state.step::<u64, Vec<u8>, &str>(SessionEvent::InitReady { blocks_total_count: 1, blocks_total_size: 5, cursor: 0 });
    assert_eq!(action, SessionAction::Reply { blocks_total_count: 1, blocks_total_size: 5 });
    let (state, action) = state.step::<u64, Vec<u8>, &str>(SessionEvent::ReplyRefused);
    assert_eq!(state, SessionState::Done);
    assert_eq!(action, SessionAction::Finish { outcome: Ok(()) });
}

#[test]
fn init_refused_and_cancelled_are_session_errors() {
    let (state, _) = SessionState::<usize>::start::<u64, Vec<u8>, &str>();
    let (_, action) = state.step::<u64, Vec<u8>, &str>(SessionEvent::InitRefused { error: "gone" });
    assert_eq!(action, SessionAction::Finish { outcome: Err(Error::RequestIterBlocksInitBefehl("gone")) });
    let (state, _) = SessionState::<usize>::start::<u64, Vec<u8>, &str>();
    let (_, action) = state.step::<u64, Vec<u8>, &str>(SessionEvent::InitCancelled);
    assert_eq!(action, SessionAction::Finish { outcome: Err(Error::FtdSklaveIsGoneDuringIterBlocksInit) });
}

#[test]
fn next_refused_and_cancelled_are_session_errors() {
    let (_, action): (SessionState<usize>, Action) = SessionState::AwaitingNext.step(SessionEvent::NextRefused { error: "gone" });
    assert_eq!(action, SessionAction::Finish { outcome: Err(Error::RequestIterBlocksNextBefehl("gone")) });
    let (state, action): (SessionState<usize>, Action) = SessionState::AwaitingNext.step(SessionEvent::NextCancelled);
    assert_eq!(state, SessionState::Done);
    assert_eq!(action, SessionAction::Finish { outcome: Err(Error::FtdSklaveIsGoneDuringIterBlocksNext) });
}

#[test]
fn cursor_is_replaced_on_every_round_trip() {
    let (state, action): (SessionState<usize>, Action) = SessionState::AwaitingNext.step(SessionEvent::NextBlock {
        block_id: 1u64,
        block_bytes: vec![7u8],
        cursor: 41,
    });
    assert_eq!(state, SessionState::Publishing { cursor: 41 });
    assert_eq!(action, SessionAction::Publish { item: IterBlocksItem::Block { block_id: 1u64, block_bytes: vec![7u8] } });
    let (_, action): (SessionState<usize>, Action) = state.step(SessionEvent::ItemTaken);
    assert_eq!(action, SessionAction::SubmitNext { cursor: 41 });
}

#[test]
fn session_expects_only_fitting_events() {
    let waiting = SessionState::<usize>::AwaitingInit;
    assert!(waiting.expects(&Event::InitCancelled));
    assert!(!waiting.expects(&Event::ItemTaken));
    assert!(!SessionState::<usize>::Done.expects(&Event::NextNoMore));
    assert!(SessionState::<usize>::Closing.expects(&Event::ItemRefused));
    assert!(!SessionState::<usize>::Replying { cursor: 0 }.expects(&Event::NextNoMore));
}
