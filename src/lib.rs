//! A receiver for Art-Net lighting-control packets.
//!
//! The library holds the receiver's configuration and the decisions of its
//! listener: which decoded packets are handed to the application, which
//! discovery requests are answered and with what reply, and when the
//! listener stops. Sockets, threads and the delivery channel live around it.
pub mod address;
pub mod builder;
pub mod command;
pub mod listener;
pub mod poll_reply;

pub use address::{IpAddress, SocketAddress, SocketAddressV4};
pub use builder::{ArtnetRecieverBuilder, DEFAULT_PORT};
pub use command::{Command, CommandKind};
pub use listener::{Action, Listener};
pub use poll_reply::{clone_poll_reply_data, PollReply};
