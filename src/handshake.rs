use vstd::prelude::*;
use crate::address::{to_ipv6, Endpoint, EndpointView};
use crate::error::{Error, Result};
use crate::header::magic_error;
use crate::verack::{verack_header, verack_of_wire, Verack};
use crate::version::{
    lemma_version_round_trip, message_wire, outgoing_version, version_of_wire, Version,
};

verus! {

/// Where a handshake with one peer stands.
#[derive(Debug, PartialEq, Eq)]
pub enum Phase {
    /// The connection is open and nothing was sent yet.
    Connected,
    /// Our version message went out; the peer's version is awaited.
    VersionSent,
    /// The peer's version was accepted and our acknowledgement went out; the
    /// peer's acknowledgement is awaited.
    VerackSent,
    /// Both messages were exchanged both ways.
    Complete,
    /// The handshake ended with this error.
    Failed(Error),
}

/// What the transport reports to a handshake.
#[derive(Debug, PartialEq, Eq)]
pub enum Event {
    /// The connection is open, from `local`, at `timestamp` (unix seconds).
    Opened { local: Endpoint, timestamp: i64 },
    /// One whole message came from the peer.
    Received(Vec<u8>),
    /// Connecting, reading or writing failed, or timed out.
    TransportFailed,
}

/// What the transport has to do next.
#[derive(Debug, PartialEq, Eq)]
pub enum Action {
    /// Write these bytes, then read the peer's next message.
    Send(Vec<u8>),
    /// The handshake completed.
    Finish,
    /// The handshake failed with this error.
    Abort(Error),
}

/// The decisions of one handshake: version out, version in, nonce checked,
/// acknowledgement out, acknowledgement in.
#[derive(Debug)]
pub struct Handshake {
    /// The network magic as hex digits.
    pub start_string: String,
    /// The nonce of our version message.
    pub nonce: u64,
    /// The peer, in canonical form.
    pub remote: Endpoint,
    pub phase: Phase,
}

/// The bytes of our version message for a connection opened from `local`.
pub open spec fn version_message(
    start_string: Seq<char>,
    nonce: u64,
    remote: EndpointView,
    local: EndpointView,
    timestamp: i64,
) -> Seq<u8> {
    let v = outgoing_version(start_string, nonce, remote, local.canonical(), timestamp);
    message_wire(v.header, v.payload.wire())
}

/// Rejects a received version message that carries the nonce we sent: the
/// connection leads back to ourselves.
pub fn check_nonce(sent_nonce: u64, received: &Version) -> (r: Result<()>)
    ensures
        r == if sent_nonce == received.payload.nonce {
            Err::<(), Error>(Error::NonceConflictError)
        } else {
            Ok(())
        },
{
    if sent_nonce == received.get_nonce() {
        Err(Error::NonceConflictError)
    } else {
        Ok(())
    }
}

impl Handshake {
    /// A handshake with `remote` that will send `nonce`.
    pub fn new(remote: Endpoint, start_string: String, nonce: u64) -> (r: Handshake)
        requires
            remote@.wf(),
        ensures
            r.remote@ == remote@.canonical(),
            r.start_string@ == start_string@,
            r.nonce == nonce,
            r.phase == Phase::Connected,
    {
        let mut remote = remote;
        to_ipv6(&mut remote);
        Handshake { start_string, nonce, remote, phase: Phase::Connected }
    }

    /// A handshake with `remote` that will send a fresh random nonce.
    pub fn with_random_nonce(remote: Endpoint, start_string: String) -> (r: Handshake)
        requires
            remote@.wf(),
        ensures
            r.remote@ == remote@.canonical(),
            r.start_string@ == start_string@,
            r.phase == Phase::Connected,
    {
        Handshake::new(remote, start_string, generate_nonce())
    }

    /// Whether the handshake has ended, well or not.
    pub fn is_finished(&self) -> (r: bool)
        ensures
            r == (self.phase is Complete || self.phase is Failed),
    {
        match self.phase {
            Phase::Complete | Phase::Failed(_) => true,
            _ => false,
        }
    }

    /// Ends the handshake with `e`.
    fn fail(&mut self, e: Error) -> (r: Action)
        ensures
            final(self).phase == Phase::Failed(e),
            final(self).start_string == old(self).start_string,
            final(self).nonce == old(self).nonce,
            final(self).remote == old(self).remote,
            r == Action::Abort(e),
    {
        self.phase = Phase::Failed(e.duplicate());
        Action::Abort(e)
    }

    /// Takes one event and says what to do next.
    ///
    /// Opened, while connected: our version message is sent, from the peer
    /// as sender to the local endpoint as receiver, both canonical. Received,
    /// after our version: the message is read as a version message; an
    /// error in it, or our own nonce in it, ends the handshake; else our
    /// acknowledgement is sent. Received, after our acknowledgement: the
    /// message is read as an acknowledgement, and the handshake completes or
    /// fails. A transport failure, or an event that the phase does not
    /// expect, fails the handshake with a transport error.
    pub fn step(&mut self, event: Event) -> (r: Action)
        requires
            old(self).remote@.wf(),
            event matches Event::Opened { local, .. } ==> local@.wf(),
        ensures
            final(self).start_string == old(self).start_string,
            final(self).nonce == old(self).nonce,
            final(self).remote == old(self).remote,
            ({
                let s = old(self).start_string@;
                match (old(self).phase, event) {
                    (Phase::Connected, Event::Opened { local, timestamp }) => match magic_error(s) {
                        Some(e) => final(self).phase == Phase::Failed(e) && r == Action::Abort(e),
                        None => final(self).phase == Phase::VersionSent && (r matches Action::Send(b)
                            && b@ == version_message(
                            s,
                            old(self).nonce,
                            old(self).remote@,
                            local@,
                            timestamp,
                        )),
                    },
                    (Phase::VersionSent, Event::Received(b)) => match version_of_wire(b@) {
                        Err(e) => final(self).phase == Phase::Failed(e) && r == Action::Abort(e),
                        Ok(v) => if v.payload.nonce == old(self).nonce {
                            final(self).phase == Phase::Failed(Error::NonceConflictError) && r
                                == Action::Abort(Error::NonceConflictError)
                        } else {
                            match magic_error(s) {
                                Some(e) => final(self).phase == Phase::Failed(e) && r
                                    == Action::Abort(e),
                                None => final(self).phase == Phase::VerackSent && (r matches Action::Send(
                                    a,
                                ) && a@ == verack_header(s).wire()),
                            }
                        },
                    },
                    (Phase::VerackSent, Event::Received(b)) => match verack_of_wire(b@) {
                        Err(e) => final(self).phase == Phase::Failed(e) && r == Action::Abort(e),
                        Ok(_) => final(self).phase == Phase::Complete && r == Action::Finish,
                    },
                    _ => final(self).phase == Phase::Failed(Error::IOError) && r == Action::Abort(
                        Error::IOError,
                    ),
                }
            }),
    {
        match (&self.phase, event) {
            (Phase::Connected, Event::Opened { local, timestamp }) => {
                let mut local = local;
                to_ipv6(&mut local);
                let mut msg = Version::new_at(
                    self.start_string.clone(),
                    self.nonce,
                    Endpoint { ip: self.remote.ip.clone(), port: self.remote.port },
                    local,
                    timestamp,
                );
                match msg.to_bytes() {
                    Err(e) => self.fail(e),
                    Ok(b) => {
                        self.phase = Phase::VersionSent;
                        Action::Send(b)
                    },
                }
            },
            (Phase::VersionSent, Event::Received(b)) => {
                let received = match Version::from_bytes(b.as_slice()) {
                    Err(e) => {
                        return self.fail(e);
                    },
                    Ok(v) => v,
                };
                if let Err(e) = check_nonce(self.nonce, &received) {
                    return self.fail(e);
                }
                let ack = Verack::new(self.start_string.clone());
                match ack.to_bytes() {
                    Err(e) => self.fail(e),
                    Ok(a) => {
                        self.phase = Phase::VerackSent;
                        Action::Send(a)
                    },
                }
            },
            (Phase::VerackSent, Event::Received(b)) => match Verack::from_bytes(b.as_slice()) {
                Err(e) => self.fail(e),
                Ok(_) => {
                    self.phase = Phase::Complete;
                    Action::Finish
                },
            },
            _ => self.fail(Error::IOError),
        }
    }
}

/// Our own version message, read back as the peer's reply, carries the nonce
/// we sent: a handshake that is answered with it fails as a connection to
/// ourselves.
pub proof fn lemma_echoed_version_is_self_connection(
    start_string: Seq<char>,
    nonce: u64,
    remote: EndpointView,
    local: EndpointView,
    timestamp: i64,
)
    requires
        remote.wf(),
        local.wf(),
        magic_error(start_string) is None,
    ensures
        version_of_wire(version_message(start_string, nonce, remote, local, timestamp)) matches Ok(
            v,
        ) && v.payload.nonce == nonce,
{
    crate::address::lemma_endpoint_canonical(local);
    let v = outgoing_version(start_string, nonce, remote, local.canonical(), timestamp);
    lemma_version_round_trip(v.header, v.payload);
}

/// Relies on rand::random::<u64>: a value drawn from the thread-local
/// generator; nothing is promised of it.
#[verifier::external_body]
fn generate_nonce() -> u64 {
    rand::random::<u64>()
}

} // verus!
