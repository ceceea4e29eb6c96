use ero_blockwheel_fs::dispatcher::{on_submitted, route, Error, Route};
use ero_blockwheel_fs::proto::{CommandKind, Envelope, RequestKind};
use ero_blockwheel_fs::relay::{self, EchoPolicy, Order, Welt};

const ALL_COMMANDS: [CommandKind; 7] = [
    CommandKind::Info,
    CommandKind::Flush,
    CommandKind::WriteBlock,
    CommandKind::ReadBlock,
    CommandKind::DeleteBlock,
    CommandKind::IterBlocksInit,
    CommandKind::IterBlocksNext,
];

#[test]
fn relay_delivers_result_with_its_stamp() {
    let order = Order {
        kind: CommandKind::ReadBlock,
        envelope: Envelope::Delivered { inhalt: vec![1u8, 2, 3], stamp: "caller-7" },
    };
    assert_eq!(Welt.handle(order), Ok((vec![1u8, 2, 3], "caller-7")));
}

#[test]
fn relay_delivers_write_id_unchanged() {
    let order = Order {
        kind: CommandKind::WriteBlock,
        envelope: Envelope::Delivered { inhalt: 42u64, stamp: 9u32 },
    };
    assert_eq!(Welt.handle(order), Ok((42u64, 9u32)));
}

#[test]
fn relay_stops_on_each_cancelled_kind() {
    let expected = [
        relay::Error::GenServerIsLostOnRequestInfo,
        relay::Error::GenServerIsLostOnRequestFlush,
        relay::Error::GenServerIsLostOnRequestWriteBlock,
        relay::Error::GenServerIsLostOnRequestReadBlock,
        relay::Error::GenServerIsLostOnRequestDeleteBlock,
        relay::Error::GenServerIsLostOnRequestIterBlocksInit,
        relay::Error::GenServerIsLostOnRequestIterBlocksNext,
    ];
    for (kind, error) in ALL_COMMANDS.iter().zip(expected.iter()) {
        let order: Order<u8, u8> = Order { kind: *kind, envelope: Envelope::Cancelled { stamp: 1 } };
        assert_eq!(Welt.handle(order), Err(*error));
        assert_eq!(EchoPolicy::lost_on(*kind), *error);
    }
}

#[test]
fn dispatcher_routes_each_request() {
    assert_eq!(route(RequestKind::Info), Route::Submit(CommandKind::Info));
    assert_eq!(route(RequestKind::Flush), Route::Submit(CommandKind::Flush));
    assert_eq!(route(RequestKind::WriteBlock), Route::Submit(CommandKind::WriteBlock));
    assert_eq!(route(RequestKind::ReadBlock), Route::Submit(CommandKind::ReadBlock));
    assert_eq!(route(RequestKind::DeleteBlock), Route::Submit(CommandKind::DeleteBlock));
    assert_eq!(route(RequestKind::IterBlocks), Route::SpawnSession);
}

#[test]
fn dispatcher_goes_on_after_accepted_submission() {
    for kind in ALL_COMMANDS.iter() {
        assert_eq!(on_submitted::<&str>(*kind, Ok(())), Ok(()));
    }
}

#[test]
fn dispatcher_stops_on_each_refused_submission() {
    let expected = [
        Error::RequestInfoBefehl("gone"),
        Error::RequestFlushBefehl("gone"),
        Error::RequestWriteBlockBefehl("gone"),
        Error::RequestReadBlockBefehl("gone"),
        Error::RequestDeleteBlockBefehl("gone"),
        Error::RequestIterBlocksInitBefehl("gone"),
        Error::RequestIterBlocksNextBefehl("gone"),
    ];
    for (kind, error) in ALL_COMMANDS.iter().zip(expected.iter()) {
        assert_eq!(on_submitted(*kind, Err("gone")), Err(*error));
        assert_eq!(Error::refused(*kind, "gone"), *error);
    }
}
