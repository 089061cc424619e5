//! The discovery reply that a node sends when it is polled.
use vstd::prelude::*;

verus! {

/// The fields of an Art-Net poll reply, as plain values.
///
/// `address`, `port` and `bind_ip` describe the node on the network. The
/// listener fills `address` and `bind_ip` in for each reply it sends; `port`
/// is sent as configured.
#[derive(Clone, Copy, Debug, PartialEq, Eq)]
pub struct PollReply {
    pub address: [u8; 4],
    pub port: u16,
    pub version: [u8; 2],
    pub port_address: [u8; 2],
    pub oem: [u8; 2],
    pub ubea_version: u8,
    pub status_1: u8,
    pub esta_code: u16,
    pub short_name: [u8; 18],
    pub long_name: [u8; 64],
    pub node_report: [u8; 64],
    pub num_ports: [u8; 2],
    pub port_types: [u8; 4],
    pub good_input: [u8; 4],
    pub good_output: [u8; 4],
    pub swin: [u8; 4],
    pub swout: [u8; 4],
    pub sw_video: u8,
    pub sw_macro: u8,
    pub sw_remote: u8,
    pub spare: [u8; 3],
    pub style: u8,
    pub mac: [u8; 6],
    pub bind_ip: [u8; 4],
    pub bind_index: u8,
    pub status_2: u8,
    pub filler: [u8; 26],
}

/// `template` with the node's own address and the requester's address put in;
/// every other field is the template's.
pub open spec fn filled_reply(template: PollReply, own: [u8; 4], requester: [u8; 4]) -> PollReply {
    PollReply { address: own, bind_ip: requester, ..template }
}

impl PollReply {
    /// The reply to send to a requester at `requester`, from a node at `own`.
    pub fn filled(&self, own: [u8; 4], requester: [u8; 4]) -> (r: PollReply)
        ensures
            r == filled_reply(*self, own, requester),
    {
        let mut r = *self;
        r.address = own;
        r.bind_ip = requester;
        r
    }
}

/// An independent copy of an optional poll reply.
pub fn clone_poll_reply_data(poll_reply_data: &Option<PollReply>) -> (r: Option<PollReply>)
    ensures
        r == *poll_reply_data,
{
    match poll_reply_data {
        Some(poll_reply) => Some(*poll_reply),
        None => None,
    }
}

} // verus!
