use vstd::prelude::*;
use vstd::bytes::{
    spec_u32_from_le_bytes, spec_u32_to_le_bytes, spec_u64_from_le_bytes, spec_u64_to_le_bytes,
    u32_from_le_bytes, u32_to_le_bytes, u64_from_le_bytes, u64_to_le_bytes,
};
use crate::address::{
    bytes_to_socket, endpoint_of_wire, endpoint_wire, port_from_be, socket_to_bytes, Endpoint,
    EndpointView,
};
use crate::bytes::{append_bytes, bytes_equal};
use crate::checksum::{checksum_of, digest};
use crate::error::{Error, Result};
use crate::header::{
    header_of_wire, le32_bytes, lemma_le32_round_trip, magic_error, Header, HeaderView,
};

verus! {

/// Protocol version announced in outgoing version messages.
pub const PROTOCOL_VERSION: i32 = 70016;

/// Length of a version payload without user agent and relay flag.
pub const FIXED_PAYLOAD_SIZE: usize = 85;

/// The fields of a version message, in wire order.
#[derive(Debug, PartialEq, Eq)]
pub struct VersionPayload {
    pub version: i32,
    pub services: u64,
    pub timestamp: i64,
    pub addr_recv_services: u64,
    pub recv: Endpoint,
    pub addr_trans_services: u64,
    pub trans: Endpoint,
    pub nonce: u64,
    pub user_agent_bytes: u8,
    pub user_agent: Option<Vec<u8>>,
    pub start_height: i32,
    pub relay: Option<u8>,
}

/// The mathematical value of a version payload.
pub struct VersionPayloadView {
    pub version: i32,
    pub services: u64,
    pub timestamp: i64,
    pub addr_recv_services: u64,
    pub recv: EndpointView,
    pub addr_trans_services: u64,
    pub trans: EndpointView,
    pub nonce: u64,
    pub user_agent_bytes: u8,
    pub user_agent: Option<Seq<u8>>,
    pub start_height: i32,
    pub relay: Option<u8>,
}

impl View for VersionPayload {
    type V = VersionPayloadView;

    open spec fn view(&self) -> VersionPayloadView {
        VersionPayloadView {
            version: self.version,
            services: self.services,
            timestamp: self.timestamp,
            addr_recv_services: self.addr_recv_services,
            recv: self.recv@,
            addr_trans_services: self.addr_trans_services,
            trans: self.trans@,
            nonce: self.nonce,
            user_agent_bytes: self.user_agent_bytes,
            user_agent: match self.user_agent {
                Some(a) => Some(a@),
                None => None,
            },
            start_height: self.start_height,
            relay: self.relay,
        }
    }
}

/// The bytes of an optional field; nothing when it is absent.
pub open spec fn user_agent_seq(ua: Option<Seq<u8>>) -> Seq<u8> {
    match ua {
        Some(a) => a,
        None => Seq::empty(),
    }
}

/// The relay byte when there is one.
pub open spec fn relay_seq(relay: Option<u8>) -> Seq<u8> {
    match relay {
        Some(b) => seq![b],
        None => Seq::empty(),
    }
}

impl VersionPayloadView {
    /// Both endpoints are addresses and the user agent fits its length byte.
    pub open spec fn wf(self) -> bool {
        &&& self.recv.wf()
        &&& self.trans.wf()
        &&& user_agent_seq(self.user_agent).len() <= 255
    }

    /// A payload that the wire can carry unchanged but for its endpoints: the
    /// length byte gives the user agent's length, and an empty user agent is
    /// written as absent.
    pub open spec fn valid(self) -> bool {
        &&& self.wf()
        &&& self.user_agent_bytes as nat == user_agent_seq(self.user_agent).len()
        &&& (self.user_agent matches Some(a) ==> a.len() > 0)
    }

    /// The payload bytes: each field in order, integers little-endian, the
    /// user agent after its length byte, the relay byte only when present.
    pub open spec fn wire(self) -> Seq<u8> {
        spec_u32_to_le_bytes(self.version as u32) + spec_u64_to_le_bytes(self.services)
            + spec_u64_to_le_bytes(self.timestamp as u64) + spec_u64_to_le_bytes(
            self.addr_recv_services,
        ) + endpoint_wire(self.recv) + spec_u64_to_le_bytes(self.addr_trans_services)
            + endpoint_wire(self.trans) + spec_u64_to_le_bytes(self.nonce) + seq![
            self.user_agent_bytes,
        ] + user_agent_seq(self.user_agent) + spec_u32_to_le_bytes(self.start_height as u32)
            + relay_seq(self.relay)
    }

    /// The same payload with both endpoints in their canonical IPv6 form.
    pub open spec fn canonical(self) -> VersionPayloadView {
        VersionPayloadView {
            recv: self.recv.canonical(),
            trans: self.trans.canonical(),
            ..self
        }
    }
}

/// The payload that bytes stand for, read field by field. None when the bytes
/// end before the start height. The relay byte is read exactly when one byte
/// is left after the start height.
pub open spec fn payload_of_wire(p: Seq<u8>) -> Option<VersionPayloadView> {
    if p.len() < 81 || p.len() < 85 + p[80] {
        None
    } else {
        let n = p[80] as int;
        Some(
            VersionPayloadView {
                version: spec_u32_from_le_bytes(p.subrange(0, 4)) as i32,
                services: spec_u64_from_le_bytes(p.subrange(4, 12)),
                timestamp: spec_u64_from_le_bytes(p.subrange(12, 20)) as i64,
                addr_recv_services: spec_u64_from_le_bytes(p.subrange(20, 28)),
                recv: endpoint_of_wire(p.subrange(28, 46)),
                addr_trans_services: spec_u64_from_le_bytes(p.subrange(46, 54)),
                trans: endpoint_of_wire(p.subrange(54, 72)),
                nonce: spec_u64_from_le_bytes(p.subrange(72, 80)),
                user_agent_bytes: p[80],
                user_agent: if n > 0 {
                    Some(p.subrange(81, 81 + n))
                } else {
                    None
                },
                start_height: spec_u32_from_le_bytes(p.subrange(81 + n, 85 + n)) as i32,
                relay: if p.len() - (85 + n) == 1 {
                    Some(p[85 + n])
                } else {
                    None
                },
            },
        )
    }
}

/// The command name of a version message.
pub open spec fn version_command() -> Seq<u8> {
    seq![118u8, 101u8, 114u8, 115u8, 105u8, 111u8, 110u8, 0u8, 0u8, 0u8, 0u8, 0u8]
}

/// An outgoing version message from `trans` to `recv`, before it is written.
pub open spec fn outgoing_version(
    start_string: Seq<char>,
    nonce: u64,
    trans: EndpointView,
    recv: EndpointView,
    timestamp: i64,
) -> VersionView {
    VersionView {
        header: HeaderView {
            start_string,
            command_name: version_command(),
            payload_size: FIXED_PAYLOAD_SIZE as u32,
            checksum: Seq::empty(),
        },
        payload: VersionPayloadView {
            version: PROTOCOL_VERSION,
            services: 1,
            timestamp,
            addr_recv_services: 1,
            recv,
            addr_trans_services: 1,
            trans,
            nonce,
            user_agent_bytes: 0,
            user_agent: None,
            start_height: 0,
            relay: None,
        },
    }
}

/// Relies on `SystemTime::elapsed` of `UNIX_EPOCH`: the whole seconds from
/// the unix epoch to now, or None when the clock stands before the epoch.
#[verifier::external_body]
fn seconds_since_epoch() -> (r: Option<u64>) {
    std::time::UNIX_EPOCH.elapsed().ok().map(|d| d.as_secs())
}

/// A version message: its header and its payload.
#[derive(Debug, PartialEq, Eq)]
pub struct Version {
    pub header: Header,
    pub payload: VersionPayload,
}

/// The mathematical value of a version message.
pub struct VersionView {
    pub header: HeaderView,
    pub payload: VersionPayloadView,
}

impl View for Version {
    type V = VersionView;

    open spec fn view(&self) -> VersionView {
        VersionView { header: self.header@, payload: self.payload@ }
    }
}

impl VersionView {
    /// The header's command has its width and the payload can be written.
    pub open spec fn wf(self) -> bool {
        self.header.command_name.len() == 12 && self.payload.wf()
    }
}

/// The header that goes with a payload: its size and checksum filled in.
pub open spec fn framed_header(h: HeaderView, payload: Seq<u8>) -> HeaderView {
    HeaderView { payload_size: payload.len() as u32, checksum: checksum_of(payload), ..h }
}

/// A whole message on the wire: the framed header, then the payload.
pub open spec fn message_wire(h: HeaderView, payload: Seq<u8>) -> Seq<u8> {
    framed_header(h, payload).wire() + payload
}

/// The version message that bytes stand for, or the error that reading them
/// gives: a short read, a checksum mismatch, another command, or a payload too
/// short for its fields. The network magic is read as it stands and not
/// compared here.
pub open spec fn version_of_wire(b: Seq<u8>) -> core::result::Result<VersionView, Error> {
    if b.len() < 24 {
        Err(Error::IOError)
    } else {
        let h = header_of_wire(b);
        if b.len() - 24 < h.payload_size {
            Err(Error::IOError)
        } else {
            let p = b.subrange(24, 24 + h.payload_size);
            if checksum_of(p) != h.checksum {
                Err(Error::ChecksumError)
            } else if h.command_name != version_command() {
                Err(Error::BadMessageHeader)
            } else {
                match payload_of_wire(p) {
                    None => Err(Error::IOError),
                    Some(v) => Ok(VersionView { header: h, payload: v }),
                }
            }
        }
    }
}

/// The little-endian `u32` at `at`.
fn read_u32_le(p: &[u8], at: usize) -> (r: u32)
    requires
        at + 4 <= p@.len(),
    ensures
        r == spec_u32_from_le_bytes(p@.subrange(at as int, at + 4)),
{
    let len = p.len();
    assert(at + 4 <= len);
    u32_from_le_bytes(vstd::slice::slice_subrange(p, at, at + 4))
}

/// The little-endian `u64` at `at`.
fn read_u64_le(p: &[u8], at: usize) -> (r: u64)
    requires
        at + 8 <= p@.len(),
    ensures
        r == spec_u64_from_le_bytes(p@.subrange(at as int, at + 8)),
{
    let len = p.len();
    assert(at + 8 <= len);
    u64_from_le_bytes(vstd::slice::slice_subrange(p, at, at + 8))
}

/// The endpoint whose 18 wire bytes start at `at`.
fn read_endpoint(p: &[u8], at: usize) -> (r: Endpoint)
    requires
        at + 18 <= p@.len(),
    ensures
        r@ == endpoint_of_wire(p@.subrange(at as int, at + 18)),
{
    let len = p.len();
    assert(at + 18 <= len);
    let port = (p[at + 16] as u16) * 256 + p[at + 17] as u16;
    let r = bytes_to_socket(vstd::slice::slice_subrange(p, at, at + 16), port);
    let ghost w = p@.subrange(at as int, at + 18);
    assert(r.ip@ =~= w.subrange(0, 16));
    assert(w[16] == p@[at + 16] && w[17] == p@[at + 17]);
    r
}

/// Reads the fields of a version payload.
pub fn parse_payload(p: &[u8]) -> (r: Result<VersionPayload>)
    ensures
        payload_of_wire(p@) matches Some(v) ==> (r matches Ok(q) && q@ == v),
        payload_of_wire(p@) is None ==> r == Err::<VersionPayload, Error>(Error::IOError),
{
    if p.len() < 81 || p.len() < FIXED_PAYLOAD_SIZE + p[80] as usize {
        return Err(Error::IOError);
    }
    let n = p[80] as usize;
    let user_agent = if n > 0 {
        Some(vstd::slice::slice_to_vec(vstd::slice::slice_subrange(p, 81, 81 + n)))
    } else {
        None
    };
    let relay = if p.len() - (FIXED_PAYLOAD_SIZE + n) == 1 {
        Some(p[FIXED_PAYLOAD_SIZE + n])
    } else {
        None
    };
    let q = VersionPayload {
        version: read_u32_le(p, 0) as i32,
        services: read_u64_le(p, 4),
        timestamp: read_u64_le(p, 12) as i64,
        addr_recv_services: read_u64_le(p, 20),
        recv: read_endpoint(p, 28),
        addr_trans_services: read_u64_le(p, 46),
        trans: read_endpoint(p, 54),
        nonce: read_u64_le(p, 72),
        user_agent_bytes: p[80],
        user_agent,
        start_height: read_u32_le(p, 81 + n) as i32,
        relay,
    };
    Ok(q)
}

impl Version {
    /// An outgoing version message from `trans` to `recv`, stamped with
    /// `timestamp`: no user agent, start height zero, no relay byte. Its
    /// checksum is left empty until the message is written.
    pub fn new_at(start_string: String, nonce: u64, trans: Endpoint, recv: Endpoint, timestamp: i64) -> (r: Version)
        ensures
            r@ == outgoing_version(start_string@, nonce, trans@, recv@, timestamp),
    {
        let name: Vec<u8> = vec![118u8, 101u8, 114u8, 115u8, 105u8, 111u8, 110u8, 0u8, 0u8, 0u8, 0u8, 0u8];
        let header = Header {
            start_string,
            command_name: name,
            payload_size: FIXED_PAYLOAD_SIZE as u32,
            checksum: Vec::new(),
        };
        let payload = VersionPayload {
            version: PROTOCOL_VERSION,
            services: 1,
            timestamp,
            addr_recv_services: 1,
            recv,
            addr_trans_services: 1,
            trans,
            nonce,
            user_agent_bytes: 0,
            user_agent: None,
            start_height: 0,
            relay: None,
        };
        let r = Version { header, payload };
        assert(r@.header.command_name =~= version_command());
        r
    }

    /// An outgoing version message from `trans` to `recv`, stamped with the
    /// current time; fails when the clock stands before the unix epoch.
    pub fn new(start_string: String, nonce: u64, trans: Endpoint, recv: Endpoint) -> (r: Result<Version>)
        ensures
            r is Err ==> r == Err::<Version, Error>(Error::SystemTimeError),
            r matches Ok(v) ==> v@ == outgoing_version(
                start_string@,
                nonce,
                trans@,
                recv@,
                v@.payload.timestamp,
            ),
    {
        match seconds_since_epoch() {
            None => Err(Error::SystemTimeError),
            Some(secs) => Ok(Version::new_at(start_string, nonce, trans, recv, secs as i64)),
        }
    }

    /// Gives the message a user agent; an empty one is written as absent.
    pub fn set_user_agent(&mut self, agent: Vec<u8>)
        requires
            agent@.len() <= 255,
        ensures
            final(self)@.header == old(self)@.header,
            final(self)@.payload == (VersionPayloadView {
                user_agent_bytes: agent@.len() as u8,
                user_agent: if agent@.len() > 0 {
                    Some(agent@)
                } else {
                    None
                },
                ..old(self)@.payload
            }),
    {
        self.payload.user_agent_bytes = agent.len() as u8;
        if agent.len() > 0 {
            self.payload.user_agent = Some(agent);
        } else {
            self.payload.user_agent = None;
        }
    }

    /// Sets or clears the relay flag.
    pub fn set_relay(&mut self, relay: Option<u8>)
        ensures
            final(self)@.header == old(self)@.header,
            final(self)@.payload == (VersionPayloadView { relay, ..old(self)@.payload }),
    {
        self.payload.relay = relay;
    }

    /// The user agent bytes; empty when there is none.
    fn user_agent_to_bytes(&self) -> (r: Vec<u8>)
        ensures
            r@ == user_agent_seq(self.payload@.user_agent),
    {
        match &self.payload.user_agent {
            Some(agent) => agent.clone(),
            None => Vec::new(),
        }
    }

    /// The nonce of the payload.
    pub fn get_nonce(&self) -> (r: u64)
        ensures
            r == self.payload.nonce,
    {
        self.payload.nonce
    }

    /// The payload bytes.
    pub fn payload_to_bytes(&self) -> (r: Vec<u8>)
        requires
            self@.payload.wf(),
        ensures
            r@ == self@.payload.wire(),
    {
        let p = &self.payload;
        let mut out = u32_to_le_bytes(p.version as u32);
        append_bytes(&mut out, u64_to_le_bytes(p.services).as_slice());
        append_bytes(&mut out, u64_to_le_bytes(p.timestamp as u64).as_slice());
        append_bytes(&mut out, u64_to_le_bytes(p.addr_recv_services).as_slice());
        append_bytes(&mut out, socket_to_bytes(&p.recv).as_slice());
        append_bytes(&mut out, u64_to_le_bytes(p.addr_trans_services).as_slice());
        append_bytes(&mut out, socket_to_bytes(&p.trans).as_slice());
        append_bytes(&mut out, u64_to_le_bytes(p.nonce).as_slice());
        out.push(p.user_agent_bytes);
        append_bytes(&mut out, self.user_agent_to_bytes().as_slice());
        append_bytes(&mut out, u32_to_le_bytes(p.start_height as u32).as_slice());
        if let Some(relay) = p.relay {
            out.push(relay);
        }
        assert(out@ =~= self@.payload.wire());
        out
    }

    /// Writes the message: the payload's checksum and size go into the header,
    /// then header and payload are written.
    pub fn to_bytes(&mut self) -> (r: Result<Vec<u8>>)
        requires
            old(self)@.wf(),
        ensures
            final(self)@ == (VersionView {
                header: framed_header(old(self)@.header, old(self)@.payload.wire()),
                payload: old(self)@.payload,
            }),
            magic_error(old(self)@.header.start_string) matches Some(e) ==> r == Err::<
                Vec<u8>,
                Error,
            >(e),
            magic_error(old(self)@.header.start_string) is None ==> (r matches Ok(v) && v@
                == message_wire(old(self)@.header, old(self)@.payload.wire())),
    {
        let payload = self.payload_to_bytes();
        proof {
            vstd::bytes::lemma_auto_spec_u32_to_from_le_bytes();
            vstd::bytes::lemma_auto_spec_u64_to_from_le_bytes();
        }
        let checksum = digest(payload.as_slice());
        self.header.update_checksum(checksum);
        self.header.payload_size = payload.len() as u32;
        let mut out = self.header.to_bytes()?;
        append_bytes(&mut out, payload.as_slice());
        Ok(out)
    }

    /// Reads a version message: the header, then `payload_size` payload bytes,
    /// whose checksum must match the header's, then the command, which must be
    /// `version`, then the payload's fields. The network magic is kept as
    /// read, not compared.
    pub fn from_bytes(input: &[u8]) -> (r: Result<Version>)
        ensures
            version_of_wire(input@) matches Ok(v) ==> (r matches Ok(m) && m@ == v),
            version_of_wire(input@) matches Err(e) ==> r == Err::<Version, Error>(e),
    {
        let header = Header::from_bytes(input)?;
        let size = header.payload_size as usize;
        if input.len() - 24 < size {
            return Err(Error::IOError);
        }
        let payload_bytes = vstd::slice::slice_subrange(input, 24, 24 + size);
        let checksum = digest(payload_bytes);
        if !bytes_equal(checksum.as_slice(), header.checksum.as_slice()) {
            return Err(Error::ChecksumError);
        }
        let name: Vec<u8> = vec![118u8, 101u8, 114u8, 115u8, 105u8, 111u8, 110u8, 0u8, 0u8, 0u8, 0u8, 0u8];
        assert(name@ =~= version_command());
        if !bytes_equal(header.command_name.as_slice(), name.as_slice()) {
            return Err(Error::BadMessageHeader);
        }
        let payload = parse_payload(payload_bytes)?;
        Ok(Version { header, payload })
    }
}

/// A signed 32-bit value survives the trip through its unsigned bits.
proof fn lemma_i32_through_u32(x: i32)
    ensures
        (x as u32) as i32 == x,
{
    assert((x as u32) as i32 == x) by (bit_vector);
}

/// A signed 64-bit value survives the trip through its unsigned bits.
proof fn lemma_i64_through_u64(x: i64)
    ensures
        (x as u64) as i64 == x,
{
    assert((x as u64) as i64 == x) by (bit_vector);
}

/// Facts on the layout of the payload bytes of a well-formed payload.
proof fn lemma_payload_layout(p: VersionPayloadView)
    requires
        p.wf(),
    ensures
        p.wire().len() == 85 + user_agent_seq(p.user_agent).len() + relay_seq(p.relay).len(),
        p.wire()[80] == p.user_agent_bytes,
{
    vstd::bytes::lemma_auto_spec_u32_to_from_le_bytes();
    vstd::bytes::lemma_auto_spec_u64_to_from_le_bytes();
    crate::address::lemma_endpoint_canonical(p.recv);
    crate::address::lemma_endpoint_canonical(p.trans);
}

/// Decoding a written version message gives back every payload field, the two
/// endpoints in their canonical IPv6 form, and the header's command, size and
/// checksum.
pub proof fn lemma_version_round_trip(h: HeaderView, p: VersionPayloadView)
    requires
        p.valid(),
        h.command_name == version_command(),
        magic_error(h.start_string) is None,
    ensures
        version_of_wire(message_wire(h, p.wire())) matches Ok(v) && v.payload == p.canonical()
            && v.header.command_name == h.command_name && v.header.payload_size
            == p.wire().len() && v.header.checksum == checksum_of(p.wire()),
{
    vstd::bytes::lemma_auto_spec_u32_to_from_le_bytes();
    vstd::bytes::lemma_auto_spec_u64_to_from_le_bytes();
    crate::address::lemma_endpoint_canonical(p.recv);
    crate::address::lemma_endpoint_canonical(p.trans);
    lemma_payload_layout(p);
    let w = p.wire();
    let fh = framed_header(h, w);
    let b = message_wire(h, w);
    let m = crate::header::magic_bytes(h.start_string)->0;
    let size = le32_bytes(w.len() as u32);
    lemma_le32_round_trip(w.len() as u32);
    assert(fh.wire() == m + h.command_name + size + checksum_of(w));
    assert(fh.wire().len() == 24);
    let hw = header_of_wire(b);
    assert(b.subrange(16, 20) =~= size);
    assert(hw.payload_size == w.len());
    assert(b.subrange(20, 24) =~= checksum_of(w));
    assert(b.subrange(4, 16) =~= h.command_name);
    assert(b.subrange(24, 24 + w.len() as int) =~= w);
    let n = p.user_agent_bytes as int;
    let ua = user_agent_seq(p.user_agent);
    let v4 = spec_u32_to_le_bytes(p.version as u32);
    let s8 = spec_u64_to_le_bytes(p.services);
    let t8 = spec_u64_to_le_bytes(p.timestamp as u64);
    let r8 = spec_u64_to_le_bytes(p.addr_recv_services);
    let re = endpoint_wire(p.recv);
    let a8 = spec_u64_to_le_bytes(p.addr_trans_services);
    let te = endpoint_wire(p.trans);
    let n8 = spec_u64_to_le_bytes(p.nonce);
    let h4 = spec_u32_to_le_bytes(p.start_height as u32);
    assert(w.subrange(0, 4) =~= v4);
    assert(w.subrange(4, 12) =~= s8);
    assert(w.subrange(12, 20) =~= t8);
    assert(w.subrange(20, 28) =~= r8);
    assert(w.subrange(28, 46) =~= re);
    assert(w.subrange(46, 54) =~= a8);
    assert(w.subrange(54, 72) =~= te);
    assert(w.subrange(72, 80) =~= n8);
    assert(w.subrange(81, 81 + n) =~= ua);
    assert(w.subrange(81 + n, 85 + n) =~= h4);
    let v = payload_of_wire(w)->0;
    lemma_i32_through_u32(p.version);
    lemma_i64_through_u64(p.timestamp);
    lemma_i32_through_u32(p.start_height);
    if p.relay is Some {
        assert(w[85 + n] == p.relay->0);
    }
    assert(v.user_agent == p.user_agent);
    assert(v == p.canonical());
}

/// A written version message in which one payload byte was changed, such
/// that the checksum of the payload changed, is rejected with a checksum
/// error.
pub proof fn lemma_corrupted_payload_rejected(h: HeaderView, p: VersionPayloadView, i: int, x: u8)
    requires
        p.wf(),
        h.command_name.len() == 12,
        magic_error(h.start_string) is None,
        0 <= i < p.wire().len(),
        checksum_of(p.wire().update(i, x)) != checksum_of(p.wire()),
    ensures
        version_of_wire(message_wire(h, p.wire()).update(24 + i, x)) == Err::<VersionView, Error>(
            Error::ChecksumError,
        ),
{
    vstd::bytes::lemma_auto_spec_u32_to_from_le_bytes();
    lemma_payload_layout(p);
    let w = p.wire();
    let b = message_wire(h, w);
    let c = b.update(24 + i, x);
    let size = le32_bytes(w.len() as u32);
    lemma_le32_round_trip(w.len() as u32);
    assert(framed_header(h, w).wire().len() == 24);
    assert(c.subrange(16, 20) =~= size);
    assert(c.subrange(20, 24) =~= checksum_of(w));
    assert(c.subrange(24, 24 + w.len() as int) =~= w.update(i, x));
}

} // verus!
