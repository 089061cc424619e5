//! Configuration of a receiver before it starts.
use vstd::prelude::*;
use crate::address::SocketAddressV4;
use crate::listener::Listener;
use crate::poll_reply::{clone_poll_reply_data, PollReply};

verus! {

/// The UDP port that Art-Net uses.
pub const DEFAULT_PORT: u16 = 6454;

/// A builder for the receiver.
///
/// By default it binds to `0.0.0.0:6454`, lets other sockets share the port,
/// and answers no discovery requests.
#[derive(Clone, Debug)]
pub struct ArtnetRecieverBuilder {
    /// The address to bind to.
    pub address: SocketAddressV4,
    /// Whether other sockets may bind the same address.
    pub reuse_address: bool,
    /// The reply to discovery requests, where one is to be sent.
    pub poll_reply_data: Option<PollReply>,
}

impl Default for ArtnetRecieverBuilder {
    fn default() -> (r: Self)
        ensures
            r.address == (SocketAddressV4 { ip: [0u8, 0u8, 0u8, 0u8], port: DEFAULT_PORT }),
            r.reuse_address,
            r.poll_reply_data is None,
    {
        ArtnetRecieverBuilder {
            address: SocketAddressV4 { ip: [0, 0, 0, 0], port: DEFAULT_PORT },
            reuse_address: true,
            poll_reply_data: None,
        }
    }
}

impl ArtnetRecieverBuilder {
    /// Sets the IP address and the port to bind to.
    pub fn socket_address(self, address: SocketAddressV4) -> (r: Self)
        ensures
            r == (ArtnetRecieverBuilder { address, ..self }),
    {
        ArtnetRecieverBuilder { address, ..self }
    }

    /// Sets the IP address to bind to, keeping the port.
    pub fn ip_address(self, ip: [u8; 4]) -> (r: Self)
        ensures
            r == (ArtnetRecieverBuilder { address: SocketAddressV4 { ip, ..self.address }, ..self }),
    {
        let mut s = self;
        s.address.ip = ip;
        s
    }

    /// Sets the port to bind to, keeping the IP address.
    pub fn port(self, port: u16) -> (r: Self)
        ensures
            r == (ArtnetRecieverBuilder { address: SocketAddressV4 { port, ..self.address }, ..self }),
    {
        let mut s = self;
        s.address.port = port;
        s
    }

    /// Sets whether other sockets may bind the same address.
    pub fn reuse_address(self, reuse_address: bool) -> (r: Self)
        ensures
            r == (ArtnetRecieverBuilder { reuse_address, ..self }),
    {
        ArtnetRecieverBuilder { reuse_address, ..self }
    }

    /// Sets the reply sent to discovery requests. Its `address` and `bind_ip`
    /// are filled in by the listener for each reply.
    pub fn poll_reply(self, poll_reply_data: PollReply) -> (r: Self)
        ensures
            r == (ArtnetRecieverBuilder { poll_reply_data: Some(poll_reply_data), ..self }),
    {
        ArtnetRecieverBuilder { poll_reply_data: Some(poll_reply_data), ..self }
    }

    /// The listener that a receiver built from this configuration starts with:
    /// running, with its own copy of the address and of the reply.
    pub fn listener(&self) -> (r: Listener)
        ensures
            r == (Listener {
                bind_address: self.address,
                poll_reply: self.poll_reply_data,
                running: true,
            }),
    {
        Listener::new(self.address, clone_poll_reply_data(&self.poll_reply_data))
    }
}

} // verus!
