use vstd::prelude::*;
use crate::error::{Error, Result};
use crate::bytes::bytes_equal;
use crate::header::{header_of_wire, magic_error, Header};
use crate::verack::{verack_command, verack_of_wire, Verack};
use crate::version::{
    framed_header, message_wire, version_command, version_of_wire, Version, VersionView,
};

verus! {

/// A message of one of the kinds that a handshake exchanges.
#[derive(Debug, PartialEq, Eq)]
pub enum Message {
    Version(Version),
    Verack(Verack),
}

impl Message {
    /// The message can be written.
    pub open spec fn wf(&self) -> bool {
        match self {
            Message::Version(v) => v@.wf(),
            Message::Verack(a) => a.header@.wf(),
        }
    }

    /// Reads a message of the kind that its header's command names: a short
    /// read when the header is not all there, `BadMessageHeader` for a command
    /// of no known kind, else what that kind's reader gives.
    pub fn from_bytes(input: &[u8]) -> (r: Result<Message>)
        ensures
            input@.len() < 24 ==> r == Err::<Message, Error>(Error::IOError),
            input@.len() >= 24 && header_of_wire(input@).command_name == version_command() ==> match version_of_wire(input@) {
                Ok(v) => r matches Ok(Message::Version(m)) && m@ == v,
                Err(e) => r == Err::<Message, Error>(e),
            },
            input@.len() >= 24 && header_of_wire(input@).command_name == verack_command() ==> match verack_of_wire(input@) {
                Ok(h) => r matches Ok(Message::Verack(a)) && a.header@ == h,
                Err(e) => r == Err::<Message, Error>(e),
            },
            input@.len() >= 24 && header_of_wire(input@).command_name != version_command()
                && header_of_wire(input@).command_name != verack_command() ==> r == Err::<
                Message,
                Error,
            >(Error::BadMessageHeader),
    {
        let header = Header::from_bytes(input)?;
        let version_name: Vec<u8> = vec![118u8, 101u8, 114u8, 115u8, 105u8, 111u8, 110u8, 0u8, 0u8, 0u8, 0u8, 0u8];
        let verack_name: Vec<u8> = vec![118u8, 101u8, 114u8, 97u8, 99u8, 107u8, 0u8, 0u8, 0u8, 0u8, 0u8, 0u8];
        assert(version_name@ =~= version_command());
        assert(verack_name@ =~= verack_command());
        if bytes_equal(header.command_name.as_slice(), version_name.as_slice()) {
            let v = Version::from_bytes(input)?;
            Ok(Message::Version(v))
        } else if bytes_equal(header.command_name.as_slice(), verack_name.as_slice()) {
            let a = Verack::from_bytes(input)?;
            Ok(Message::Verack(a))
        } else {
            Err(Error::BadMessageHeader)
        }
    }

    /// Writes the message, as its kind writes it.
    pub fn to_bytes(&mut self) -> (r: Result<Vec<u8>>)
        requires
            old(self).wf(),
        ensures
            match *old(self) {
                Message::Version(v) => {
                    let payload = v@.payload.wire();
                    &&& *final(self) matches Message::Version(w) && w@ == (VersionView {
                        header: framed_header(v@.header, payload),
                        payload: v@.payload,
                    })
                    &&& magic_error(v@.header.start_string) matches Some(e) ==> r == Err::<
                        Vec<u8>,
                        Error,
                    >(e)
                    &&& magic_error(v@.header.start_string) is None ==> (r matches Ok(b) && b@
                        == message_wire(v@.header, payload))
                },
                Message::Verack(a) => {
                    &&& *final(self) == *old(self)
                    &&& magic_error(a.header@.start_string) matches Some(e) ==> r == Err::<
                        Vec<u8>,
                        Error,
                    >(e)
                    &&& magic_error(a.header@.start_string) is None ==> (r matches Ok(b) && b@
                        == a.header@.wire())
                },
            },
    {
        match self {
            Message::Version(v) => v.to_bytes(),
            Message::Verack(a) => a.to_bytes(),
        }
    }
}

} // verus!
