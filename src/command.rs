//! Art-Net packets as the listener sees them.
use vstd::prelude::*;

verus! {

/// The payload of a DMX data packet, as artnet_protocol decodes it.
#[verifier::external_type_specification]
#[verifier::external_body]
pub struct ExOutput(artnet_protocol::Output);

/// Why artnet_protocol could not decode a packet.
#[verifier::external_type_specification]
#[verifier::external_body]
pub struct ExError(artnet_protocol::Error);

/// Which kind of packet a datagram holds.
#[derive(Clone, Copy, Debug, PartialEq, Eq, Structural)]
pub enum CommandKind {
    Poll,
    PollReply,
    Output,
    Other,
}

/// A decoded packet, reduced to what the listener acts on.
#[derive(Debug)]
pub enum Command {
    /// A discovery request.
    Poll,
    /// A discovery reply from another node.
    PollReply,
    /// DMX data for one universe.
    Output(artnet_protocol::Output),
    /// Any other packet that the protocol defines.
    Other,
}

impl Command {
    pub open spec fn kind(self) -> CommandKind {
        match self {
            Command::Poll => CommandKind::Poll,
            Command::PollReply => CommandKind::PollReply,
            Command::Output(_) => CommandKind::Output,
            Command::Other => CommandKind::Other,
        }
    }
}

/// The eight bytes that begin every Art-Net packet: "Art-Net" and a zero byte.
pub open spec fn artnet_header() -> Seq<u8> {
    seq![0x41u8, 0x72, 0x74, 0x2d, 0x4e, 0x65, 0x74, 0x00]
}

/// The shortest datagram that can hold a packet: header, opcode and version.
pub const MIN_PACKET_LENGTH: usize = 14;

/// The kind of packet that `bytes` decodes to, or `None` where they do not decode.
pub uninterp spec fn decoded_kind(bytes: Seq<u8>) -> Option<CommandKind>;

/// Relies on artnet_protocol's `ArtCommand::from_buffer`: it decodes the
/// datagram, refusing one shorter than the minimum or one that does not begin
/// with the Art-Net header; which packet it yields depends on the bytes alone.
#[verifier::external_body]
fn decode_art_command(bytes: &[u8]) -> (r: Result<Command, artnet_protocol::Error>)
    ensures
        match r {
            Ok(c) => decoded_kind(bytes@) == Some(c.kind()),
            Err(_) => decoded_kind(bytes@) is None,
        },
        bytes@.len() < MIN_PACKET_LENGTH ==> r is Err,
        bytes@.len() >= 8 && bytes@.subrange(0, 8) != artnet_header() ==> r is Err,
{
    match artnet_protocol::ArtCommand::from_buffer(bytes)? {
        artnet_protocol::ArtCommand::Poll(_) => Ok(Command::Poll),
        artnet_protocol::ArtCommand::PollReply(_) => Ok(Command::PollReply),
        artnet_protocol::ArtCommand::Output(output) => Ok(Command::Output(output)),
        _ => Ok(Command::Other),
    }
}

impl Command {
    /// Decodes a datagram; `None` where it holds no packet that the protocol defines.
    pub fn decode(bytes: &[u8]) -> (r: Option<Command>)
        ensures
            match r {
                Some(c) => decoded_kind(bytes@) == Some(c.kind()),
                None => decoded_kind(bytes@) is None,
            },
            bytes@.len() < MIN_PACKET_LENGTH ==> r is None,
            bytes@.len() >= 8 && bytes@.subrange(0, 8) != artnet_header() ==> r is None,
    {
        match decode_art_command(bytes) {
            Ok(c) => Some(c),
            Err(_) => None,
        }
    }
}

} // verus!
