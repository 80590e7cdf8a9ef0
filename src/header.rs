use vstd::prelude::*;
use crate::error::{Error, Result};
use crate::hexstr::{
    hex_decode, hex_decoded, hex_encode, hex_encoded, is_hex, lemma_hex_decode_of_encoded,
};

verus! {

/// Length of a message header on the wire.
pub const HEADER_SIZE: usize = 24;

/// The fixed 24-byte header that precedes each payload.
#[derive(Debug, PartialEq, Eq)]
pub struct Header {
    /// The network magic as hex digits, most significant byte first.
    pub start_string: String,
    /// The command name, right-padded with zero bytes to 12 bytes.
    pub command_name: Vec<u8>,
    /// The length of the payload that follows.
    pub payload_size: u32,
    /// The checksum of the payload.
    pub checksum: Vec<u8>,
}

/// The mathematical value of a header.
pub struct HeaderView {
    pub start_string: Seq<char>,
    pub command_name: Seq<u8>,
    pub payload_size: u32,
    pub checksum: Seq<u8>,
}

impl View for Header {
    type V = HeaderView;

    open spec fn view(&self) -> HeaderView {
        HeaderView {
            start_string: self.start_string@,
            command_name: self.command_name@,
            payload_size: self.payload_size,
            checksum: self.checksum@,
        }
    }
}

/// A `u32` as four bytes, least significant first.
pub open spec fn le32_bytes(x: u32) -> Seq<u8> {
    seq![
        (x & 0xff) as u8,
        ((x >> 8) & 0xff) as u8,
        ((x >> 16) & 0xff) as u8,
        ((x >> 24) & 0xff) as u8,
    ]
}

/// The `u32` that four bytes hold, least significant first.
pub open spec fn le32_value(s: Seq<u8>) -> u32 {
    (s[0] as u32) | ((s[1] as u32) << 8) | ((s[2] as u32) << 16) | ((s[3] as u32) << 24)
}

/// Four little-endian bytes read back as the value they were written from.
pub proof fn lemma_le32_round_trip(x: u32)
    ensures
        le32_bytes(x).len() == 4,
        le32_value(le32_bytes(x)) == x,
{
    assert((x & 0xff) < 256 && ((x >> 8) & 0xff) < 256 && ((x >> 16) & 0xff) < 256 && ((x
        >> 24) & 0xff) < 256) by (bit_vector);
    assert(x == ((x & 0xff) | (((x >> 8) & 0xff) << 8) | (((x >> 16) & 0xff) << 16) | (((x
        >> 24) & 0xff) << 24))) by (bit_vector);
}

/// Zero is written as four zero bytes.
pub proof fn lemma_le32_zero()
    ensures
        le32_bytes(0) == seq![0u8, 0u8, 0u8, 0u8],
{
    let z: u32 = 0;
    assert((z & 0xff) == 0 && ((z >> 8) & 0xff) == 0 && ((z >> 16) & 0xff) == 0 && ((z >> 24)
        & 0xff) == 0) by (bit_vector)
        requires
            z == 0,
    ;
    assert(le32_bytes(0) =~= seq![0u8, 0u8, 0u8, 0u8]);
}

/// The four little-endian bytes of `x`.
fn write_le32(x: u32) -> (r: Vec<u8>)
    ensures
        r@ == le32_bytes(x),
{
    let r = vec![
        (x & 0xff) as u8,
        ((x >> 8) & 0xff) as u8,
        ((x >> 16) & 0xff) as u8,
        ((x >> 24) & 0xff) as u8,
    ];
    assert(r@ =~= le32_bytes(x));
    r
}

/// A sequence in reverse order.
pub open spec fn reversed(s: Seq<u8>) -> Seq<u8> {
    Seq::new(s.len(), |i: int| s[s.len() - 1 - i])
}

/// The four wire bytes of a network magic: its hex digits decoded and
/// byte-reversed. None when the digits do not decode to four bytes.
pub open spec fn magic_bytes(start_string: Seq<char>) -> Option<Seq<u8>> {
    if is_hex(start_string) && hex_decoded(start_string).len() == 4 {
        Some(reversed(hex_decoded(start_string)))
    } else {
        None
    }
}

/// The error that writing a header with this magic gives, if any.
pub open spec fn magic_error(start_string: Seq<char>) -> Option<Error> {
    if !is_hex(start_string) {
        Some(Error::HexDecodeError)
    } else if hex_decoded(start_string).len() != 4 {
        Some(Error::BadMessageHeader)
    } else {
        None
    }
}

impl HeaderView {
    /// The command name and the checksum have their fixed widths.
    pub open spec fn wf(self) -> bool {
        self.command_name.len() == 12 && self.checksum.len() == 4
    }

    /// The 24 wire bytes of a header whose magic is valid.
    pub open spec fn wire(self) -> Seq<u8> {
        magic_bytes(self.start_string)->0 + self.command_name + le32_bytes(
            self.payload_size,
        ) + self.checksum
    }
}

/// The header that the first 24 bytes of `b` stand for.
pub open spec fn header_of_wire(b: Seq<u8>) -> HeaderView {
    HeaderView {
        start_string: hex_encoded(reversed(b.subrange(0, 4))),
        command_name: b.subrange(4, 16),
        payload_size: le32_value(b.subrange(16, 20)),
        checksum: b.subrange(20, 24),
    }
}

/// The bytes of `s` in reverse order.
fn reverse_bytes(s: &[u8]) -> (r: Vec<u8>)
    ensures
        r@ == reversed(s@),
{
    let mut r: Vec<u8> = Vec::new();
    let mut i: usize = s.len();
    while i > 0
        invariant
            i <= s@.len(),
            r@.len() == s@.len() - i,
            forall|k: int| 0 <= k < r@.len() ==> r@[k] == s@[s@.len() - 1 - k],
        decreases i,
    {
        i -= 1;
        r.push(s[i]);
    }
    assert(r@ =~= reversed(s@));
    r
}

/// The bytes that hex digits stand for, in wire order (the digits give the
/// most significant byte first); fails exactly on what is not hex.
pub fn from_hex_string(hex_string: &String) -> (r: Result<Vec<u8>>)
    ensures
        !is_hex(hex_string@) ==> r == Err::<Vec<u8>, Error>(Error::HexDecodeError),
        is_hex(hex_string@) ==> (r matches Ok(v) && v@ == reversed(hex_decoded(hex_string@))),
{
    match hex_decode(hex_string.as_str()) {
        Err(_) => Err(Error::HexDecodeError),
        Ok(decoded) => Ok(reverse_bytes(decoded.as_slice())),
    }
}

/// The four wire bytes of a network magic given as hex digits.
pub fn magic_from_hex(hex_string: &String) -> (r: Result<Vec<u8>>)
    ensures
        magic_error(hex_string@) matches Some(e) ==> r == Err::<Vec<u8>, Error>(e),
        magic_error(hex_string@) is None ==> (r matches Ok(v) && Some(v@) == magic_bytes(
            hex_string@,
        )),
{
    let bytes = from_hex_string(hex_string)?;
    if bytes.len() != 4 {
        Err(Error::BadMessageHeader)
    } else {
        Ok(bytes)
    }
}

/// Bytes written by `to_hex_string` are read back by `from_hex_string`.
pub proof fn lemma_hex_string_round_trip(b: Seq<u8>)
    ensures
        is_hex(hex_encoded(reversed(b))),
        reversed(hex_decoded(hex_encoded(reversed(b)))) == b,
{
    lemma_hex_decode_of_encoded(reversed(b));
    assert(reversed(reversed(b)) =~= b);
}

/// The network magic, as hex digits, of its wire bytes.
pub fn to_hex_string(bytes: &[u8]) -> (r: String)
    ensures
        r@ == hex_encoded(reversed(bytes@)),
{
    let rev = reverse_bytes(bytes);
    hex_encode(rev.as_slice())
}

impl Header {
    /// Writes the 24 header bytes.
    pub fn to_bytes(&self) -> (r: Result<Vec<u8>>)
        requires
            self@.wf(),
        ensures
            magic_error(self.start_string@) matches Some(e) ==> r == Err::<Vec<u8>, Error>(e),
            magic_error(self.start_string@) is None ==> (r matches Ok(v) && v@ == self@.wire()),
    {
        let mut result = magic_from_hex(&self.start_string)?;
        let mut i: usize = 0;
        while i < self.command_name.len()
            invariant
                i <= self.command_name@.len(),
                result@ == magic_bytes(self.start_string@)->0 + self.command_name@.subrange(
                    0,
                    i as int,
                ),
            decreases self.command_name@.len() - i,
        {
            result.push(self.command_name[i]);
            i += 1;
            assert(result@ =~= magic_bytes(self.start_string@)->0 + self.command_name@.subrange(
                0,
                i as int,
            ));
        }
        let size = write_le32(self.payload_size);
        let mut j: usize = 0;
        let ghost prefix = result@;
        while j < 4
            invariant
                j <= 4,
                size@ == le32_bytes(self.payload_size),
                size@.len() == 4,
                result@ == prefix + size@.subrange(0, j as int),
            decreases 4 - j,
        {
            result.push(size[j]);
            j += 1;
            assert(result@ =~= prefix + size@.subrange(0, j as int));
        }
        let ghost prefix2 = result@;
        let mut k: usize = 0;
        while k < 4
            invariant
                k <= 4,
                self.checksum@.len() == 4,
                result@ == prefix2 + self.checksum@.subrange(0, k as int),
            decreases 4 - k,
        {
            result.push(self.checksum[k]);
            k += 1;
            assert(result@ =~= prefix2 + self.checksum@.subrange(0, k as int));
        }
        assert(self.command_name@.subrange(0, 12) =~= self.command_name@);
        assert(size@.subrange(0, 4) =~= size@);
        assert(self.checksum@.subrange(0, 4) =~= self.checksum@);
        assert(result@ =~= self@.wire());
        Ok(result)
    }

    /// Reads a header from the first 24 bytes of `input`; fails with a short
    /// read when fewer are there.
    pub fn from_bytes(input: &[u8]) -> (r: Result<Header>)
        ensures
            input@.len() < 24 ==> r == Err::<Header, Error>(Error::IOError),
            input@.len() >= 24 ==> (r matches Ok(h) && h@ == header_of_wire(input@)),
    {
        if input.len() < HEADER_SIZE {
            return Err(Error::IOError);
        }
        let start = vstd::slice::slice_subrange(input, 0, 4);
        let command = vstd::slice::slice_subrange(input, 4, 16);
        let size = vstd::slice::slice_subrange(input, 16, 20);
        let checksum = vstd::slice::slice_subrange(input, 20, 24);
        Ok(Header {
            start_string: to_hex_string(start),
            command_name: vstd::slice::slice_to_vec(command),
            payload_size: (size[0] as u32) | ((size[1] as u32) << 8) | ((size[2] as u32) << 16) | ((
                size[3] as u32) << 24),
            checksum: vstd::slice::slice_to_vec(checksum),
        })
    }

    /// Replaces the checksum.
    pub fn update_checksum(&mut self, new_checksum: Vec<u8>)
        ensures
            final(self)@ == (HeaderView { checksum: new_checksum@, ..old(self)@ }),
    {
        self.checksum = new_checksum;
    }

    /// The length of the payload that follows the header.
    pub fn payload_size(&self) -> (r: u32)
        ensures
            r == self.payload_size,
    {
        self.payload_size
    }
}

} // verus!
