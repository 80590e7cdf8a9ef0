use vstd::prelude::*;

verus! {

/// A network endpoint: an IPv4 (4 bytes) or IPv6 (16 bytes) address in
/// network order, and a port.
#[derive(Debug, Clone, PartialEq, Eq)]
pub struct Endpoint {
    pub ip: Vec<u8>,
    pub port: u16,
}

/// The mathematical value of an endpoint.
pub struct EndpointView {
    pub ip: Seq<u8>,
    pub port: u16,
}

impl View for Endpoint {
    type V = EndpointView;

    open spec fn view(&self) -> EndpointView {
        EndpointView { ip: self.ip@, port: self.port }
    }
}

impl EndpointView {
    /// The address is an IPv4 or an IPv6 address.
    pub open spec fn wf(self) -> bool {
        self.ip.len() == 4 || self.ip.len() == 16
    }

    /// The same endpoint with an IPv4 address mapped into IPv6.
    pub open spec fn canonical(self) -> EndpointView {
        EndpointView { ip: mapped_ip(self.ip), port: self.port }
    }
}

/// The IPv4-mapped IPv6 form (`::ffff:a.b.c.d`) of a 4-byte address; any other
/// address is left as it is.
pub open spec fn mapped_ip(ip: Seq<u8>) -> Seq<u8> {
    if ip.len() == 4 {
        seq![0u8, 0u8, 0u8, 0u8, 0u8, 0u8, 0u8, 0u8, 0u8, 0u8, 0xffu8, 0xffu8] + ip
    } else {
        ip
    }
}

/// A port in big-endian order.
pub open spec fn port_be(port: u16) -> Seq<u8> {
    seq![(port / 256) as u8, (port % 256) as u8]
}

/// The port held by two bytes in big-endian order.
pub open spec fn port_from_be(hi: u8, lo: u8) -> u16 {
    (hi as u16 * 256 + lo as u16) as u16
}

/// The 18-byte wire form of an endpoint: 16 address bytes, then the port.
pub open spec fn endpoint_wire(e: EndpointView) -> Seq<u8> {
    mapped_ip(e.ip) + port_be(e.port)
}

/// The endpoint that 18 wire bytes stand for; the address is always IPv6.
pub open spec fn endpoint_of_wire(b: Seq<u8>) -> EndpointView {
    EndpointView { ip: b.subrange(0, 16), port: port_from_be(b[16], b[17]) }
}

/// Replaces an IPv4 address by its IPv4-mapped IPv6 form.
pub fn to_ipv6(sock: &mut Endpoint)
    requires
        old(sock)@.wf(),
    ensures
        final(sock)@ == old(sock)@.canonical(),
{
    if sock.ip.len() == 4 {
        let mut mapped: Vec<u8> = vec![0u8, 0u8, 0u8, 0u8, 0u8, 0u8, 0u8, 0u8, 0u8, 0u8, 0xffu8, 0xffu8];
        let mut i: usize = 0;
        while i < 4
            invariant
                i <= 4,
                sock.ip@.len() == 4,
                mapped@ == seq![0u8, 0u8, 0u8, 0u8, 0u8, 0u8, 0u8, 0u8, 0u8, 0u8, 0xffu8, 0xffu8]
                    + sock.ip@.subrange(0, i as int),
            decreases 4 - i,
        {
            mapped.push(sock.ip[i]);
            i += 1;
        }
        assert(sock.ip@.subrange(0, 4) =~= sock.ip@);
        sock.ip = mapped;
    }
}

/// Writes the 18-byte wire form of an endpoint.
pub fn socket_to_bytes(socket: &Endpoint) -> (r: Vec<u8>)
    requires
        socket@.wf(),
    ensures
        r@ == endpoint_wire(socket@),
        r@.len() == 18,
{
    let mut canonical = Endpoint { ip: socket.ip.clone(), port: socket.port };
    to_ipv6(&mut canonical);
    let mut r = canonical.ip;
    r.push((socket.port / 256) as u8);
    r.push((socket.port % 256) as u8);
    assert(r@ =~= endpoint_wire(socket@));
    r
}

/// The endpoint of a 16-byte address and a port.
pub fn bytes_to_socket(addr: &[u8], port: u16) -> (r: Endpoint)
    requires
        addr@.len() == 16,
    ensures
        r@ == (EndpointView { ip: addr@, port }),
{
    Endpoint { ip: vstd::slice::slice_to_vec(addr), port }
}

/// Encoding an endpoint and decoding the result gives its canonical form, and
/// encoding that form again gives the same bytes.
pub proof fn lemma_endpoint_canonical(e: EndpointView)
    requires
        e.wf(),
    ensures
        endpoint_wire(e).len() == 18,
        endpoint_of_wire(endpoint_wire(e)) == e.canonical(),
        endpoint_of_wire(endpoint_wire(e)).wf(),
        endpoint_wire(endpoint_of_wire(endpoint_wire(e))) == endpoint_wire(e),
{
    let w = endpoint_wire(e);
    assert(w.subrange(0, 16) =~= mapped_ip(e.ip));
    assert(port_from_be(w[16], w[17]) == e.port);
    assert(endpoint_of_wire(w) =~= e.canonical());
    assert(endpoint_wire(endpoint_of_wire(w)) =~= w);
}

} // verus!
