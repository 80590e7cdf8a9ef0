use vstd::prelude::*;
use crate::bytes::bytes_equal;
use crate::checksum::{checksum_of, digest};
use crate::error::{Error, Result};
use crate::header::{
    header_of_wire, le32_bytes, lemma_le32_round_trip, lemma_le32_zero, magic_bytes, magic_error,
    reversed, Header, HeaderView,
};
use crate::hexstr::{hex_decoded, is_hex, is_lower_hex, lemma_hex_round_trip};

verus! {

/// The command name of an acknowledgement.
pub open spec fn verack_command() -> Seq<u8> {
    seq![118u8, 101u8, 114u8, 97u8, 99u8, 107u8, 0u8, 0u8, 0u8, 0u8, 0u8, 0u8]
}

/// The header of an acknowledgement for a network magic: empty payload, and
/// the checksum of the empty payload.
pub open spec fn verack_header(start_string: Seq<char>) -> HeaderView {
    HeaderView {
        start_string,
        command_name: verack_command(),
        payload_size: 0,
        checksum: checksum_of(Seq::empty()),
    }
}

/// The header that bytes stand for when they hold a whole acknowledgement
/// whose payload matches its checksum; else the error that reading them
/// gives: a short read, a checksum mismatch, or another command. The network
/// magic is read as it stands and not compared here.
pub open spec fn verack_of_wire(b: Seq<u8>) -> core::result::Result<HeaderView, Error> {
    if b.len() < 24 {
        Err(Error::IOError)
    } else {
        let h = header_of_wire(b);
        if b.len() - 24 < h.payload_size {
            Err(Error::IOError)
        } else if checksum_of(b.subrange(24, 24 + h.payload_size)) != h.checksum {
            Err(Error::ChecksumError)
        } else if h.command_name != verack_command() {
            Err(Error::BadMessageHeader)
        } else {
            Ok(h)
        }
    }
}

/// An acknowledgement: a header with an empty payload.
#[derive(Debug, PartialEq, Eq)]
pub struct Verack {
    pub header: Header,
}

impl Verack {
    /// The acknowledgement for the network magic `start_string`.
    pub fn new(start_string: String) -> (r: Verack)
        ensures
            r.header@ == verack_header(start_string@),
    {
        let name: Vec<u8> = vec![118u8, 101u8, 114u8, 97u8, 99u8, 107u8, 0u8, 0u8, 0u8, 0u8, 0u8, 0u8];
        let empty: Vec<u8> = Vec::new();
        let r = Verack {
            header: Header {
                start_string,
                command_name: name,
                payload_size: 0,
                checksum: digest(empty.as_slice()),
            },
        };
        assert(empty@ =~= Seq::<u8>::empty());
        assert(r.header@.command_name =~= verack_command());
        r
    }

    /// Writes the message: the header alone.
    pub fn to_bytes(&self) -> (r: Result<Vec<u8>>)
        requires
            self.header@.wf(),
        ensures
            magic_error(self.header.start_string@) matches Some(e) ==> r == Err::<Vec<u8>, Error>(
                e,
            ),
            magic_error(self.header.start_string@) is None ==> (r matches Ok(v) && v@
                == self.header@.wire()),
    {
        self.header.to_bytes()
    }

    /// Reads an acknowledgement: the header, then `payload_size` payload bytes,
    /// whose checksum must match the header's; the command must be `verack`.
    /// The network magic is kept as read, not compared.
    pub fn from_bytes(input: &[u8]) -> (r: Result<Verack>)
        ensures
            verack_of_wire(input@) matches Ok(h) ==> (r matches Ok(m) && m.header@ == h),
            verack_of_wire(input@) matches Err(e) ==> r == Err::<Verack, Error>(e),
    {
        let header = Header::from_bytes(input)?;
        let size = header.payload_size as usize;
        if input.len() - 24 < size {
            return Err(Error::IOError);
        }
        let checksum = digest(vstd::slice::slice_subrange(input, 24, 24 + size));
        if !bytes_equal(checksum.as_slice(), header.checksum.as_slice()) {
            return Err(Error::ChecksumError);
        }
        let name: Vec<u8> = vec![118u8, 101u8, 114u8, 97u8, 99u8, 107u8, 0u8, 0u8, 0u8, 0u8, 0u8, 0u8];
        assert(name@ =~= verack_command());
        if !bytes_equal(header.command_name.as_slice(), name.as_slice()) {
            return Err(Error::BadMessageHeader);
        }
        Ok(Verack { header })
    }
}

/// An acknowledgement written for a network magic of eight lower-case hex
/// digits reads back as the same header.
pub proof fn lemma_verack_round_trip(start_string: Seq<char>)
    requires
        is_lower_hex(start_string),
        hex_decoded(start_string).len() == 4,
    ensures
        verack_of_wire(verack_header(start_string).wire()) == Ok::<HeaderView, Error>(
            verack_header(start_string),
        ),
{
    lemma_hex_round_trip(start_string);
    lemma_le32_round_trip(0);
    let h = verack_header(start_string);
    let w = h.wire();
    let m = magic_bytes(start_string)->0;
    assert(w.subrange(0, 4) =~= m);
    assert(reversed(m) =~= hex_decoded(start_string));
    assert(w.subrange(4, 16) =~= verack_command());
    assert(w.subrange(16, 20) =~= le32_bytes(0));
    assert(w.subrange(20, 24) =~= checksum_of(Seq::empty()));
    assert(w.subrange(24, 24) =~= Seq::<u8>::empty());
    assert(header_of_wire(w) == h);
}

/// The acknowledgement for the main network's magic `f9beb4d9` is written as
/// `d9 b4 be f9`, then `verack` padded with zero bytes to 12 bytes, then a
/// payload size of four zero bytes, then the checksum of the empty payload.
pub proof fn lemma_verack_main_network_bytes()
    ensures
        magic_error("f9beb4d9"@) is None,
        verack_header("f9beb4d9"@).wire() == seq![
            0xd9u8, 0xb4u8, 0xbeu8, 0xf9u8,
            0x76u8, 0x65u8, 0x72u8, 0x61u8, 0x63u8, 0x6bu8, 0u8, 0u8, 0u8, 0u8, 0u8, 0u8,
            0u8, 0u8, 0u8, 0u8,
        ] + checksum_of(Seq::empty()),
{
    reveal_strlit("f9beb4d9");
    let s = "f9beb4d9"@;
    assert(s[0] as u32 == 102 && s[1] as u32 == 57 && s[2] as u32 == 98 && s[3] as u32 == 101);
    assert(s[4] as u32 == 98 && s[5] as u32 == 52 && s[6] as u32 == 100 && s[7] as u32 == 57);
    assert(is_hex(s));
    assert(hex_decoded(s) =~= seq![0xf9u8, 0xbeu8, 0xb4u8, 0xd9u8]);
    assert(reversed(hex_decoded(s)) =~= seq![0xd9u8, 0xb4u8, 0xbeu8, 0xf9u8]);
    lemma_le32_zero();
    assert(verack_header(s).wire() =~= seq![
        0xd9u8, 0xb4u8, 0xbeu8, 0xf9u8,
        0x76u8, 0x65u8, 0x72u8, 0x61u8, 0x63u8, 0x6bu8, 0u8, 0u8, 0u8, 0u8, 0u8, 0u8,
        0u8, 0u8, 0u8, 0u8,
    ] + checksum_of(Seq::empty()));
}

} // verus!
