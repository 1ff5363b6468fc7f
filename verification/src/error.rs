//! The error taxonomy shared by the codec and the state machine.

use vstd::prelude::*;

verus! {

/// What went wrong while driving one connection.
///
/// `Finished` is not a failure: it is the sentinel through which orderly
/// termination of a stream unwinds (a finished state machine, a relay whose
/// reader saw end-of-file).
#[derive(Debug)]
pub enum Error {
    /// A catch-all failure with a short description.
    Generic(&'static str),
    /// The client violated the protocol; the message says how.
    MalformedMessage(&'static str),
    /// The underlying byte source or sink failed, or ran out of bytes
    /// before a complete message arrived.
    Io(&'static str),
    /// Name resolution produced no usable address.
    DnsError(&'static str),
    /// Orderly termination of the stream.
    Finished,
}

impl Error {
    /// A short, stable name for the kind of error, for logs.
    pub fn kind_name(&self) -> (r: &'static str)
        ensures
            r@ == self.spec_kind_name(),
    {
        match self {
            Error::Generic(_) => "generic",
            Error::MalformedMessage(_) => "malformed message",
            Error::Io(_) => "io",
            Error::DnsError(_) => "dns",
            Error::Finished => "finished",
        }
    }

    /// The name `kind_name` returns for each variant.
    pub open spec fn spec_kind_name(&self) -> Seq<char> {
        match self {
            Error::Generic(_) => "generic"@,
            Error::MalformedMessage(_) => "malformed message"@,
            Error::Io(_) => "io"@,
            Error::DnsError(_) => "dns"@,
            Error::Finished => "finished"@,
        }
    }

    /// The human-readable detail carried by the error, if any.
    pub fn message(&self) -> (r: &'static str)
        ensures
            (match self {
                Error::Generic(m) => r@ == m@,
                Error::MalformedMessage(m) => r@ == m@,
                Error::Io(m) => r@ == m@,
                Error::DnsError(m) => r@ == m@,
                Error::Finished => r@ == "stream finished"@,
            }),
    {
        match self {
            Error::Generic(m) => m,
            Error::MalformedMessage(m) => m,
            Error::Io(m) => m,
            Error::DnsError(m) => m,
            Error::Finished => "stream finished",
        }
    }
}

} // verus!
