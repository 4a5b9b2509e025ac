//! The client configuration: which URL scheme to use for each registry.

use vstd::prelude::*;

verus! {

/// The protocol that the client should use to connect.
#[derive(Debug, Clone, PartialEq)]
pub enum ClientProtocol {
    Http,
    Https,
    /// HTTPS for every registry but those listed, which use plain HTTP.
    HttpsExcept(Vec<String>),
}

/// The characters of `http`.
pub open spec fn http_scheme() -> Seq<char> {
    seq!['h', 't', 't', 'p']
}

/// The characters of `https`.
pub open spec fn https_scheme() -> Seq<char> {
    seq!['h', 't', 't', 'p', 's']
}

/// Whether `registry` is one of `hosts`.
pub open spec fn listed(hosts: Seq<String>, registry: Seq<char>) -> bool {
    exists|i: int| 0 <= i < hosts.len() && (#[trigger] hosts[i])@ == registry
}

impl ClientProtocol {
    /// The scheme used to reach `registry`.
    pub open spec fn scheme_spec(&self, registry: Seq<char>) -> Seq<char> {
        match self {
            ClientProtocol::Http => http_scheme(),
            ClientProtocol::Https => https_scheme(),
            ClientProtocol::HttpsExcept(hosts) => if listed(hosts@, registry) {
                http_scheme()
            } else {
                https_scheme()
            },
        }
    }

    /// Returns `http` or `https`, as the protocol selects for `registry`.
    pub fn scheme_for(&self, registry: &str) -> (r: &'static str)
        ensures
            r@ == self.scheme_spec(registry@),
    {
        proof {
            reveal_strlit("http");
            reveal_strlit("https");
            assert("http"@ =~= http_scheme());
            assert("https"@ =~= https_scheme());
        }
        match self {
            ClientProtocol::Https => "https",
            ClientProtocol::Http => "http",
            ClientProtocol::HttpsExcept(hosts) => if is_listed(hosts, registry) {
                "http"
            } else {
                "https"
            },
        }
    }
}

/// Whether `registry` is one of `hosts`.
fn is_listed(hosts: &Vec<String>, registry: &str) -> (r: bool)
    ensures
        r == listed(hosts@, registry@),
{
    let mut i: usize = 0;
    while i < hosts.len()
        invariant
            i <= hosts@.len(),
            forall|j: int| 0 <= j < i ==> (#[trigger] hosts@[j])@ != registry@,
        decreases hosts@.len() - i,
    {
        if crate::text::str_eq(hosts[i].as_str(), registry) {
            assert(hosts@[i as int]@ == registry@);
            return true;
        }
        i = i + 1;
    }
    false
}

impl Default for ClientProtocol {
    fn default() -> (r: Self)
        ensures
            r == ClientProtocol::Https,
    {
        ClientProtocol::Https
    }
}

/// A client configuration.
#[derive(Debug, Clone)]
pub struct ClientConfig {
    /// Which protocol the client should use.
    pub protocol: ClientProtocol,
}

impl Default for ClientConfig {
    fn default() -> (r: Self)
        ensures
            r.protocol == ClientProtocol::Https,
    {
        ClientConfig { protocol: ClientProtocol::Https }
    }
}

/// A source that can provide a `ClientConfig`, for applications that keep
/// their own configuration type.
pub trait ClientConfigSource {
    /// Provides a `ClientConfig`.
    fn client_config(&self) -> ClientConfig;
}

} // verus!
