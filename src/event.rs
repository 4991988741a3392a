//! Events the engine reports to its owner, and the contact-info pair that two
//! peers exchange out of band before a rendezvous connect.
//!
//! The live UDP socket that a hole punch produces is carried as the type
//! parameter `Sock`: this layer moves it through and never looks inside.

use vstd::prelude::*;

verus! {

/// A socket address as the `socket_addr` crate encodes it; carried through
/// unchanged.
#[verifier::external_type_specification]
#[verifier::external_body]
pub struct ExSocketAddr(socket_addr::SocketAddr);

/// The cause of a failed request; carried through unchanged.
#[verifier::external_type_specification]
#[verifier::external_body]
pub struct ExIoError(std::io::Error);

/// Transport protocol of an endpoint.
#[derive(Clone, Copy, Debug, PartialEq, Eq, Hash)]
pub enum Protocol {
    Tcp,
    Utp,
}

/// A peer's address together with the protocol to reach it by.
#[derive(Clone, Copy, Debug, PartialEq, Eq, Hash)]
pub struct Endpoint {
    pub protocol: Protocol,
    pub socket_addr: socket_addr::SocketAddr,
}

/// Identity of an established connection: its protocol and both ends.
#[derive(Clone, Copy, Debug, PartialEq, Eq, Hash)]
pub struct Connection {
    pub protocol: Protocol,
    pub our_addr: socket_addr::SocketAddr,
    pub their_addr: socket_addr::SocketAddr,
}

/// Outcome of a request to prepare contact info, tagged with its token.
#[derive(Debug)]
pub struct ContactInfoResult<Sock> {
    pub result_token: u32,
    pub result: Result<OurContactInfo<Sock>, std::io::Error>,
}

/// Contact info generated locally for a rendezvous connect.
#[derive(Debug)]
pub struct OurContactInfo<Sock> {
    /// The mapped udp socket that may be used for this connection.
    pub socket: Sock,
    /// Secret data used for rendezvous connect.
    pub secret: Option<[u8; 4]>,
    /// Our tcp listening addresses.
    pub static_addrs: Vec<Endpoint>,
    /// The mapped addresses of our udp socket.
    pub rendezvous_addrs: Vec<socket_addr::SocketAddr>,
}

/// Contact info used to connect to another peer: the part of
/// `OurContactInfo` that can be sent to it.
#[derive(Debug)]
pub struct TheirContactInfo {
    /// Secret data used for rendezvous connect.
    pub secret: Option<[u8; 4]>,
    /// Their tcp listening addresses.
    pub static_addrs: Vec<Endpoint>,
    /// Their mapped addresses for udp rendezvous connect.
    pub rendezvous_addrs: Vec<socket_addr::SocketAddr>,
}

impl<Sock> OurContactInfo<Sock> {
    /// The info to send out of band to another peer so that it can connect
    /// to us: everything but the live socket, unchanged.
    pub fn make_their_info(&self) -> (r: TheirContactInfo)
        ensures
            r.secret == self.secret,
            r.static_addrs@ == self.static_addrs@,
            r.rendezvous_addrs@ == self.rendezvous_addrs@,
    {
        let mut static_addrs: Vec<Endpoint> = Vec::new();
        let mut i: usize = 0;
        while i < self.static_addrs.len()
            invariant
                i <= self.static_addrs@.len(),
                static_addrs@ == self.static_addrs@.subrange(0, i as int),
            decreases self.static_addrs@.len() - i,
        {
            static_addrs.push(self.static_addrs[i]);
            i = i + 1;
        }
        let mut rendezvous_addrs: Vec<socket_addr::SocketAddr> = Vec::new();
        let mut j: usize = 0;
        while j < self.rendezvous_addrs.len()
            invariant
                j <= self.rendezvous_addrs@.len(),
                rendezvous_addrs@ == self.rendezvous_addrs@.subrange(0, j as int),
            decreases self.rendezvous_addrs@.len() - j,
        {
            rendezvous_addrs.push(self.rendezvous_addrs[j]);
            j = j + 1;
        }
        assert(static_addrs@ =~= self.static_addrs@);
        assert(rendezvous_addrs@ =~= self.rendezvous_addrs@);
        TheirContactInfo { secret: self.secret, static_addrs, rendezvous_addrs }
    }
}

/// Outcome of a hole-punch request, tagged with its token.
#[derive(Debug)]
pub struct HolePunchResult<Sock> {
    pub result_token: u32,
    pub udp_socket: Sock,
    pub peer_addr: Result<socket_addr::SocketAddr, std::io::Error>,
}

/// Events sent over the asynchronous channel to the owner of the engine.
#[derive(Debug)]
pub enum Event<Sock> {
    /// A message arrived on an established connection.
    NewMessage(Connection, Vec<u8>),
    /// An outbound bootstrap attempt finished; carries the request's token.
    OnBootstrapConnect(Result<(Endpoint, Connection), std::io::Error>, u32),
    /// A rendezvous connect attempt finished; carries the request's token.
    OnConnect(Result<(Endpoint, Connection), std::io::Error>, u32),
    /// An inbound bootstrap connection was accepted.
    OnBootstrapAccept(Endpoint, Connection),
    /// An established connection failed or closed.
    LostConnection(Connection),
    /// The bootstrap phase as a whole has concluded.
    BootstrapFinished,
    /// Externally reachable addresses were discovered.
    ExternalEndpoints(Vec<Endpoint>),
    /// A request to prepare contact info finished.
    ContactInfoPrepared(ContactInfoResult<Sock>),
    /// A hole-punch request finished.
    OnHolePunched(HolePunchResult<Sock>),
}

impl<Sock> Event<Sock> {
    /// The token of the request this event answers, for the events that
    /// answer a request.
    pub open spec fn token_of(&self) -> Option<u32> {
        match self {
            Event::OnBootstrapConnect(_, t) => Some(*t),
            Event::OnConnect(_, t) => Some(*t),
            Event::ContactInfoPrepared(r) => Some(r.result_token),
            Event::OnHolePunched(r) => Some(r.result_token),
            _ => None,
        }
    }

    /// The token of the request this event answers; `None` for unsolicited
    /// events.
    pub fn result_token(&self) -> (r: Option<u32>)
        ensures
            r == self.token_of(),
    {
        match self {
            Event::OnBootstrapConnect(_, t) => Some(*t),
            Event::OnConnect(_, t) => Some(*t),
            Event::ContactInfoPrepared(r) => Some(r.result_token),
            Event::OnHolePunched(r) => Some(r.result_token),
            _ => None,
        }
    }
}

} // verus!
