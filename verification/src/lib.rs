//! A client for a browser remote-debugging protocol: a directory of debuggable
//! targets is fetched over HTTP, one target is opened as a full-duplex channel
//! of discrete text frames, and commands are correlated with their responses by
//! a per-handle request-id counter while unsolicited events arrive interleaved
//! on the same channel.
//!
//! The session engine here is verified: request dispatch and id bookkeeping,
//! response correlation, the predicate-driven wait loop with its poll budget,
//! and the bounded close handshake. The transport itself (sockets, the upgrade
//! handshake, the HTTP directory call) is a collaborator outside this crate;
//! the engine sees it as a channel that yields one event per poll.

pub mod errors;
pub mod params;
pub mod codec;
pub mod frame;
pub mod channel;
pub mod session;
pub mod establish;
pub mod client;

pub use errors::{ClientError, MessageError, NetworkError, TransportError};
pub use params::{MessageParameter, ParamValue};
pub use codec::encode_envelope;
pub use frame::{frame_matches, Frame, Matcher, MatcherV};
pub use channel::{Channel, ChannelEvent};
pub use session::{close_ack_event, conclude_send, is_ack_error, receive_outcome, wait_step, CdpConnection, WaitStep};
pub use establish::{prioritize, ConnectAction, ConnectEvent, Endpoint, Establisher, Phase};
pub use client::{tab_ws_url, CdpClient, Tab};
