//! Verified core of a supervised request gateway in front of a block-storage
//! engine: the protocol types, the reply relay, the request dispatcher, the
//! block enumeration session, the caller-side reply handling and the
//! supervisor's restart decision. Every item here is a pure decision; the
//! actors, channels and the engine itself live outside the library.
pub mod foreign;
pub mod proto;
pub mod relay;
pub mod dispatcher;
pub mod session;
pub mod client;
pub mod supervisor;
