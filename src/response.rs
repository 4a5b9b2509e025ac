//! How the client reads a registry's answer: its status class and the
//! headers it must carry.

use vstd::prelude::*;
use crate::client::{location_url_spec, Client};
use crate::errors::OciError;
use crate::reference::Reference;

verus! {

/// The class of an HTTP status, relative to the one a request expects.
#[derive(Debug, Clone, Copy, PartialEq, Eq)]
pub enum StatusClass {
    /// The expected status.
    Expected,
    /// Another 4xx status: the body holds an OCI error envelope.
    ClientError,
    /// A 5xx status.
    ServerError,
    /// Any other status.
    Other,
}

/// Classifies `status` against the `expected` one.
pub fn classify_status(status: u16, expected: u16) -> (r: StatusClass)
    ensures
        status == expected ==> r == StatusClass::Expected,
        status != expected && 400 <= status < 500 ==> r == StatusClass::ClientError,
        status != expected && 500 <= status < 600 ==> r == StatusClass::ServerError,
        status != expected && !(400 <= status < 600) ==> r == StatusClass::Other,
{
    if status == expected {
        StatusClass::Expected
    } else if 400 <= status && status < 500 {
        StatusClass::ClientError
    } else if 500 <= status && status < 600 {
        StatusClass::ServerError
    } else {
        StatusClass::Other
    }
}

/// The manifest digest from the `Docker-Content-Digest` header, which a
/// successful answer must carry.
pub fn digest_header_value(header: Option<&str>) -> (r: Result<String, OciError>)
    ensures
        header matches Some(h) ==> (r matches Ok(d) && d@ == h@),
        header is None ==> r == Err::<String, _>(OciError::MissingDigestHeader),
{
    match header {
        Some(h) => Ok(String::from_str(h)),
        None => Err(OciError::MissingDigestHeader),
    }
}

impl Client {
    /// The URL in the `Location` header of an answer that must have status
    /// `expected`, resolved against the registry of `image`.
    pub fn extract_location_header(
        &self,
        image: &Reference,
        status: u16,
        expected: u16,
        location: Option<&str>,
    ) -> (r: Result<String, OciError>)
        ensures
            status != expected ==> r == Err::<String, _>(OciError::UnexpectedStatus(status)),
            status == expected && location is None ==> r == Err::<String, _>(
                OciError::MissingLocationHeader,
            ),
            status == expected && location is Some ==> (r matches Ok(u) && u@ == location_url_spec(
                self.protocol(),
                image@.registry,
                location->0@,
            )),
    {
        if status != expected {
            return Err(OciError::UnexpectedStatus(status));
        }
        match location {
            None => Err(OciError::MissingLocationHeader),
            Some(l) => Ok(self.location_header_to_url(image, l)),
        }
    }
}

} // verus!
