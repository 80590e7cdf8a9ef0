use vstd::prelude::*;

verus! {

/// Everything that can end a handshake or reject a configuration.
#[derive(Debug, Clone, PartialEq, Eq)]
pub enum Error {
    /// The configuration holds a value outside the accepted set.
    ConfigDataEror(String),
    /// A read came short, or the transport failed.
    IOError,
    /// The network magic is not a hex string.
    HexDecodeError,
    /// The network magic does not decode to exactly four bytes.
    BadMessageHeader,
    /// The wall clock stands before the unix epoch.
    SystemTimeError,
    /// A peer did not answer in time.
    FutureTimeoutExpired,
    /// The payload does not match the checksum of its header.
    ChecksumError,
    /// The peer echoed the nonce that was sent to it.
    NonceConflictError,
}

impl Error {
    /// A copy of this error.
    pub fn duplicate(&self) -> (r: Error)
        ensures
            r == *self,
    {
        match self {
            Error::ConfigDataEror(s) => Error::ConfigDataEror(s.clone()),
            Error::IOError => Error::IOError,
            Error::HexDecodeError => Error::HexDecodeError,
            Error::BadMessageHeader => Error::BadMessageHeader,
            Error::SystemTimeError => Error::SystemTimeError,
            Error::FutureTimeoutExpired => Error::FutureTimeoutExpired,
            Error::ChecksumError => Error::ChecksumError,
            Error::NonceConflictError => Error::NonceConflictError,
        }
    }
}

pub type Result<T> = core::result::Result<T, Error>;

} // verus!
