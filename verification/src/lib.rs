//! A minimal client for fetching and storing files over HTTP: downloads use
//! GET, uploads use PUT, and the target URL is obtained by joining a base
//! address with a caller-supplied key.
//!
//! This crate holds the client's decision logic: URL resolution, the
//! per-chunk download decisions, and the upload status check. The network
//! and filesystem calls themselves live outside the verified library.

use vstd::prelude::*;

pub mod resolve;
pub mod stream;

use crate::resolve::{join_raw, resolve_spec};

verus! {

/// The failures a transfer can surface. The taxonomy is flat: nothing is
/// retried or masked, every failure goes straight to the caller.
#[derive(Clone, Copy, Debug, PartialEq, Eq, Structural)]
pub enum Error {
    /// The base address or the key-joined combination is not a valid URL.
    ParseError,
    /// A local filesystem open, read or write failed.
    IO,
    /// The HTTP transport layer failed.
    Reqest,
    /// Upload only: the server answered with a status other than 200.
    Status(u16),
}

/// The short description that each failure kind carries.
pub open spec fn message_spec(e: Error) -> Seq<char> {
    match e {
        Error::ParseError => "Invalid URL"@,
        Error::IO => "I/O error"@,
        Error::Reqest => "Reqwest error"@,
        Error::Status(_) => "Request failed"@,
    }
}

impl Error {
    /// A short description of the failure, one per kind.
    pub fn message(&self) -> (m: &'static str)
        ensures
            m@ == message_spec(*self),
    {
        match self {
            Error::ParseError => "Invalid URL",
            Error::IO => "I/O error",
            Error::Reqest => "Reqwest error",
            Error::Status(_) => "Request failed",
        }
    }
}

/// A file-transfer client: one immutable base address, set at construction
/// and stored verbatim. The address is not validated here; validation is
/// deferred to the first URL resolution, as the error taxonomy requires a
/// per-operation parse failure.
pub struct Client {
    addr: String,
}

impl View for Client {
    type V = Seq<char>;

    /// A client is modelled by its base address alone.
    closed spec fn view(&self) -> Seq<char> {
        self.addr@
    }
}

impl Client {
    /// Make a client over the given base address, stored verbatim.
    pub fn new(addr: String) -> (c: Client)
        ensures
            c@ == addr@,
    {
        Client { addr }
    }

    /// Resolve `key` against the stored base address per standard URL-join
    /// rules: a relative key extends the base path, a key starting with `/`
    /// replaces it, an absolute key replaces the whole URL. Fails with a
    /// parse error when the base address or the joined combination is not
    /// a valid URL.
    pub fn url(&self, key: &str) -> (r: Result<String, Error>)
        ensures
            match r {
                Ok(u) => resolve_spec(self@, key@) == Some(u@),
                Err(e) => resolve_spec(self@, key@) is None && e == Error::ParseError,
            },
    {
        match join_raw(self.addr.as_str(), key) {
            Ok(u) => Ok(u),
            Err(_) => Err(Error::ParseError),
        }
    }
}

/// Upload accepts exactly status 200; every other status code, including
/// other 2xx codes, fails and carries the numeric code.
pub fn upload_status(status: u16) -> (r: Result<(), Error>)
    ensures
        r is Ok <==> status == 200,
        status == 200 ==> r == Ok::<(), Error>(()),
        status != 200 ==> r == Err::<(), Error>(Error::Status(status)),
{
    if status != 200 {
        Err(Error::Status(status))
    } else {
        Ok(())
    }
}

} // verus!
