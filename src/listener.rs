//! The listener's decisions: what to do with each datagram that arrives.
//!
//! The listener is driven from outside: whoever owns the socket hands it each
//! datagram and performs the action it returns, and tells it whether the
//! application still takes data.
use vstd::prelude::*;
use crate::address::{IpAddress, SocketAddress, SocketAddressV4};
use crate::command::{artnet_header, decoded_kind, Command, CommandKind, MIN_PACKET_LENGTH};
use crate::poll_reply::{filled_reply, PollReply};

verus! {

/// What the listener asks its owner to do next.
#[derive(Debug)]
pub enum Action {
    /// Nothing to send: wait for the next datagram.
    Continue,
    /// Hand this data packet to the application.
    Deliver(artnet_protocol::Output),
    /// Encode this poll reply and send it to `to`.
    Reply { reply: PollReply, to: SocketAddressV4 },
    /// The application has gone: stop listening.
    Stop,
}

/// The state of a listener: fixed when it starts, but for whether it runs.
#[derive(Clone, Debug)]
pub struct Listener {
    /// The address the socket was asked to bind to.
    pub bind_address: SocketAddressV4,
    /// The reply to discovery requests; `None` leaves them unanswered.
    pub poll_reply: Option<PollReply>,
    /// False once the application has stopped taking data.
    pub running: bool,
}

/// The node's own address: the socket's local address where the system
/// reports one, else the configured bind address.
pub open spec fn own_address(bind_address: SocketAddressV4, local: Option<IpAddress>) -> IpAddress {
    match local {
        Some(ip) => ip,
        None => IpAddress::V4(bind_address.ip),
    }
}

/// The answer to a discovery request from `sender`: a reply to the sender with
/// both addresses filled in, where a template is set and both addresses are IPv4.
pub open spec fn poll_response(l: Listener, sender: SocketAddress, local: Option<IpAddress>) -> Action {
    match l.poll_reply {
        None => Action::Continue,
        Some(template) => match (own_address(l.bind_address, local), sender.ip) {
            (IpAddress::V4(own), IpAddress::V4(requester)) => Action::Reply {
                reply: filled_reply(template, own, requester),
                to: SocketAddressV4 { ip: requester, port: sender.port },
            },
            _ => Action::Continue,
        },
    }
}

/// What a listener does with a decoded packet from `sender`.
pub open spec fn action_for(
    l: Listener,
    c: Command,
    sender: SocketAddress,
    local: Option<IpAddress>,
) -> Action {
    if !l.running {
        Action::Stop
    } else {
        match c {
            Command::Poll => poll_response(l, sender, local),
            Command::Output(o) => Action::Deliver(o),
            _ => Action::Continue,
        }
    }
}

impl Listener {
    /// A running listener with the given configuration.
    pub fn new(bind_address: SocketAddressV4, poll_reply: Option<PollReply>) -> (r: Listener)
        ensures
            r == (Listener { bind_address, poll_reply, running: true }),
    {
        Listener { bind_address, poll_reply, running: true }
    }

    /// The answer to a discovery request from `sender`, where `local` is the
    /// socket's local address if the system reports it.
    pub fn respond_to_poll(&self, sender: SocketAddress, local: Option<IpAddress>) -> (r: Action)
        ensures
            r == poll_response(*self, sender, local),
    {
        match &self.poll_reply {
            None => Action::Continue,
            Some(template) => {
                let own = match local {
                    Some(ip) => ip,
                    None => IpAddress::V4(self.bind_address.ip),
                };
                match (own, sender.ip) {
                    (IpAddress::V4(own), IpAddress::V4(requester)) => Action::Reply {
                        reply: template.filled(own, requester),
                        to: SocketAddressV4 { ip: requester, port: sender.port },
                    },
                    _ => Action::Continue,
                }
            },
        }
    }

    /// What to do with a decoded packet from `sender`.
    pub fn dispatch(&self, command: Command, sender: SocketAddress, local: Option<IpAddress>) -> (r:
        Action)
        ensures
            r == action_for(*self, command, sender, local),
    {
        if !self.running {
            return Action::Stop;
        }
        match command {
            Command::Poll => self.respond_to_poll(sender, local),
            Command::Output(o) => Action::Deliver(o),
            _ => Action::Continue,
        }
    }

    /// What to do with a datagram of `bytes` from `sender`. Bytes that do not
    /// decode to a packet are passed over.
    pub fn handle_datagram(&self, bytes: &[u8], sender: SocketAddress, local: Option<IpAddress>) -> (r:
        Action)
        ensures
            !self.running ==> r is Stop,
            self.running ==> match decoded_kind(bytes@) {
                None => r is Continue,
                Some(CommandKind::Poll) => r == poll_response(*self, sender, local),
                Some(CommandKind::Output) => r is Deliver,
                Some(_) => r is Continue,
            },
            self.running && bytes@.len() < MIN_PACKET_LENGTH ==> r is Continue,
            self.running && bytes@.len() >= 8 && bytes@.subrange(0, 8) != artnet_header()
                ==> r is Continue,
    {
        if !self.running {
            return Action::Stop;
        }
        match Command::decode(bytes) {
            Some(command) => self.dispatch(command, sender, local),
            None => Action::Continue,
        }
    }

    /// Records whether the application took the last data packet; once it has
    /// refused one, the listener stops for good.
    pub fn delivery_outcome(&mut self, accepted: bool) -> (r: Action)
        ensures
            final(self).running == (old(self).running && accepted),
            final(self).bind_address == old(self).bind_address,
            final(self).poll_reply == old(self).poll_reply,
            final(self).running ==> r is Continue,
            !final(self).running ==> r is Stop,
    {
        self.running = self.running && accepted;
        if self.running {
            Action::Continue
        } else {
            Action::Stop
        }
    }
}

/// The data packets among `actions`, in order.
pub open spec fn delivered(actions: Seq<Action>) -> Seq<artnet_protocol::Output>
    decreases actions.len(),
{
    if actions.len() == 0 {
        Seq::empty()
    } else {
        let rest = delivered(actions.drop_last());
        match actions.last() {
            Action::Deliver(o) => rest.push(o),
            _ => rest,
        }
    }
}

/// The payloads of the data packets among `commands`, in order.
pub open spec fn outputs_of(commands: Seq<Command>) -> Seq<artnet_protocol::Output>
    decreases commands.len(),
{
    if commands.len() == 0 {
        Seq::empty()
    } else {
        let rest = outputs_of(commands.drop_last());
        match commands.last() {
            Command::Output(o) => rest.push(o),
            _ => rest,
        }
    }
}

/// A datagram as the listener receives it: the packet it decoded to, its
/// sender, and the socket's local address if the system reported it.
pub type Arrival = (Command, SocketAddress, Option<IpAddress>);

/// The actions of listener `l` on each of `arrivals`, in order.
pub open spec fn actions_for(l: Listener, arrivals: Seq<Arrival>) -> Seq<Action> {
    arrivals.map_values(|a: Arrival| action_for(l, a.0, a.1, a.2))
}

/// While the application takes data, every data packet that arrives is handed
/// to it exactly once, unchanged, and in the order of arrival; nothing else is.
pub proof fn lemma_outputs_delivered_in_order(l: Listener, arrivals: Seq<Arrival>)
    requires
        l.running,
    ensures
        delivered(actions_for(l, arrivals)) == outputs_of(arrivals.map_values(|a: Arrival| a.0)),
    decreases arrivals.len(),
{
    let commands = arrivals.map_values(|a: Arrival| a.0);
    if arrivals.len() > 0 {
        let init = arrivals.drop_last();
        lemma_outputs_delivered_in_order(l, init);
        assert(actions_for(l, arrivals).drop_last() =~= actions_for(l, init));
        assert(commands.drop_last() =~= init.map_values(|a: Arrival| a.0));
    }
}

/// Without a reply template, no packet makes the listener send a reply.
pub proof fn lemma_no_template_no_reply(
    l: Listener,
    c: Command,
    sender: SocketAddress,
    local: Option<IpAddress>,
)
    requires
        l.poll_reply is None,
    ensures
        !(action_for(l, c, sender, local) is Reply),
{
}

/// With a reply template, a running listener answers a discovery request from
/// an IPv4 sender with one reply, sent to the sender, that carries the node's
/// own IPv4 address and the sender's address, and the template's other fields.
pub proof fn lemma_poll_reply_addresses(
    l: Listener,
    sender: SocketAddress,
    local: Option<IpAddress>,
    template: PollReply,
    own: [u8; 4],
    requester: [u8; 4],
)
    requires
        l.running,
        l.poll_reply == Some(template),
        own_address(l.bind_address, local) == IpAddress::V4(own),
        sender.ip == IpAddress::V4(requester),
    ensures
        action_for(l, Command::Poll, sender, local) matches Action::Reply { reply, to }
            && to == (SocketAddressV4 { ip: requester, port: sender.port })
            && reply.address == own
            && reply.bind_ip == requester
            && (PollReply { address: template.address, bind_ip: template.bind_ip, ..reply })
            == template,
{
}

/// A discovery request from an IPv6 sender, or one that reaches a socket whose
/// own address is IPv6, is not answered, and the listener goes on.
pub proof fn lemma_no_reply_over_ipv6(
    l: Listener,
    sender: SocketAddress,
    local: Option<IpAddress>,
)
    requires
        l.running,
        sender.ip is V6 || own_address(l.bind_address, local) is V6,
    ensures
        action_for(l, Command::Poll, sender, local) is Continue,
{
}

/// Once the application has refused a data packet, the listener stops: a
/// stopped listener answers every packet with `Stop`, and sends nothing.
pub proof fn lemma_stopped_listener_sends_nothing(
    l: Listener,
    accepted: bool,
    c: Command,
    sender: SocketAddress,
    local: Option<IpAddress>,
)
    requires
        !accepted || !l.running,
    ensures
        action_for(Listener { running: l.running && accepted, ..l }, c, sender, local) is Stop,
{
}

} // verus!
