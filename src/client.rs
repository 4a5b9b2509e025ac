//! The client state: its configuration and the bearer tokens it holds per
//! registry, with the URLs and headers built from them.

use vstd::prelude::*;
use crate::auth::{bearer_prefix, RegistryToken};
use crate::protocol::{ClientConfig, ClientConfigSource, ClientProtocol};
use crate::reference::Reference;
use crate::text::starts_with;

verus! {

/// The tokens held, as a map from registry host to token text: a later
/// entry for a host replaces an earlier one.
pub open spec fn token_map(entries: Seq<(String, RegistryToken)>) -> Map<Seq<char>, Seq<char>>
    decreases entries.len(),
{
    if entries.len() == 0 {
        Map::empty()
    } else {
        let last = entries.last();
        token_map(entries.drop_last()).insert(last.0@, last.1.token@)
    }
}

proof fn lemma_token_map_update(
    entries: Seq<(String, RegistryToken)>,
    j: int,
    entry: (String, RegistryToken),
)
    requires
        0 <= j < entries.len(),
        entries[j].0@ == entry.0@,
        forall|i: int| j < i < entries.len() ==> (#[trigger] entries[i]).0@ != entry.0@,
    ensures
        token_map(entries.update(j, entry)) == token_map(entries).insert(entry.0@, entry.1.token@),
    decreases entries.len(),
{
    let updated = entries.update(j, entry);
    if j == entries.len() - 1 {
        assert(updated.drop_last() =~= entries.drop_last());
        assert(token_map(updated) =~= token_map(entries).insert(entry.0@, entry.1.token@));
    } else {
        let last = entries.last();
        assert(updated.drop_last() =~= entries.drop_last().update(j, entry));
        assert(updated.last() == last);
        assert(last.0@ != entry.0@);
        lemma_token_map_update(entries.drop_last(), j, entry);
        assert(token_map(updated) =~= token_map(entries).insert(entry.0@, entry.1.token@));
    }
}

/// `{scheme}://{registry}`.
pub open spec fn origin_spec(protocol: ClientProtocol, registry: Seq<char>) -> Seq<char> {
    protocol.scheme_spec(registry) + "://"@ + registry
}

/// `{scheme}://{registry}/v2/`.
pub open spec fn base_url_spec(protocol: ClientProtocol, registry: Seq<char>) -> Seq<char> {
    origin_spec(protocol, registry) + "/v2/"@
}

/// `{scheme}://{registry}/v2/{repository}/blobs/{digest}`.
pub open spec fn blob_url_spec(
    protocol: ClientProtocol,
    registry: Seq<char>,
    repository: Seq<char>,
    digest: Seq<char>,
) -> Seq<char> {
    base_url_spec(protocol, registry) + repository + "/blobs/"@ + digest
}

/// What a manifest URL names: the digest if there is one, else the tag,
/// else `latest`.
pub open spec fn manifest_target(digest: Option<Seq<char>>, tag: Option<Seq<char>>) -> Seq<char> {
    match digest {
        Some(d) => d,
        None => match tag {
            Some(t) => t,
            None => "latest"@,
        },
    }
}

/// `{scheme}://{registry}/v2/{repository}/manifests/{target}`.
pub open spec fn manifest_url_spec(
    protocol: ClientProtocol,
    registry: Seq<char>,
    repository: Seq<char>,
    digest: Option<Seq<char>>,
    tag: Option<Seq<char>>,
) -> Seq<char> {
    base_url_spec(protocol, registry) + repository + "/manifests/"@ + manifest_target(digest, tag)
}

/// A manifest URL is `{scheme}://{registry}/v2/{repository}/manifests/`
/// followed by the digest when the reference has one, whatever its tag; by
/// the tag when it has no digest; and by `latest` when it has neither. The
/// scheme is the one the protocol selects for the registry.
pub proof fn lemma_manifest_url_shape(
    protocol: ClientProtocol,
    registry: Seq<char>,
    repository: Seq<char>,
    digest: Option<Seq<char>>,
    tag: Option<Seq<char>>,
)
    ensures
        ({
            let head = protocol.scheme_spec(registry) + "://"@ + registry + "/v2/"@ + repository
                + "/manifests/"@;
            &&& digest matches Some(d) ==> manifest_url_spec(protocol, registry, repository, digest, tag)
                == head + d
            &&& (digest is None && tag is Some) ==> manifest_url_spec(
                protocol,
                registry,
                repository,
                digest,
                tag,
            ) == head + tag->0
            &&& (digest is None && tag is None) ==> manifest_url_spec(
                protocol,
                registry,
                repository,
                digest,
                tag,
            ) == head + "latest"@
        }),
{
}

/// The media types a registry may answer a manifest request with.
pub open spec fn accept_header_value() -> Seq<char> {
    "application/vnd.docker.distribution.manifest.v2+json,application/vnd.docker.distribution.manifest.list.v2+json,application/vnd.oci.image.manifest.v1+json"@
}

/// The headers of an authenticated request: `Accept` always, and
/// `Authorization` when a token for the registry is held.
pub open spec fn auth_headers_spec(tokens: Map<Seq<char>, Seq<char>>, registry: Seq<char>) -> Seq<(Seq<char>, Seq<char>)> {
    let accept = ("Accept"@, accept_header_value());
    if tokens.contains_key(registry) {
        seq![accept, ("Authorization"@, bearer_prefix() + tokens[registry])]
    } else {
        seq![accept]
    }
}

/// The URL a `Location` header denotes: a path under `/v2/` is resolved
/// against the registry, anything else is taken as it stands.
pub open spec fn location_url_spec(protocol: ClientProtocol, registry: Seq<char>, location: Seq<char>) -> Seq<char> {
    let prefix = "/v2/"@;
    if prefix.len() <= location.len() && location.subrange(0, prefix.len() as int) == prefix {
        origin_spec(protocol, registry) + location
    } else {
        location
    }
}

/// The OCI client state: configuration and the bearer tokens obtained so far.
pub struct Client {
    config: ClientConfig,
    tokens: Vec<(String, RegistryToken)>,
}

impl Client {
    /// The protocol policy of the client.
    pub closed spec fn protocol(&self) -> ClientProtocol {
        self.config.protocol
    }

    /// The token held for each registry.
    pub closed spec fn tokens(&self) -> Map<Seq<char>, Seq<char>> {
        token_map(self.tokens@)
    }

    /// Creates a client with the supplied configuration and no tokens.
    pub fn new(config: ClientConfig) -> (r: Self)
        ensures
            r.protocol() == config.protocol,
            r.tokens() == Map::<Seq<char>, Seq<char>>::empty(),
    {
        Client { config, tokens: Vec::new() }
    }

    /// Creates a client with the configuration that `source` provides.
    pub fn from_source<S: ClientConfigSource>(source: &S) -> (r: Self)
        ensures
            r.tokens() == Map::<Seq<char>, Seq<char>>::empty(),
    {
        Client::new(source.client_config())
    }

    /// The configuration of the client.
    pub fn config(&self) -> (r: &ClientConfig)
        ensures
            r.protocol == self.protocol(),
    {
        &self.config
    }

    /// Whether a token is held for `registry`.
    pub fn has_token(&self, registry: &str) -> (r: bool)
        ensures
            r == self.tokens().contains_key(registry@),
    {
        self.token_for(registry).is_some()
    }

    /// The token held for `registry`, if any.
    pub fn token_for(&self, registry: &str) -> (r: Option<&RegistryToken>)
        ensures
            r matches Some(t) ==> self.tokens().contains_key(registry@) && self.tokens()[registry@]
                == t.token@,
            r is None ==> !self.tokens().contains_key(registry@),
    {
        let mut j: usize = self.tokens.len();
        assert(self.tokens@.take(j as int) =~= self.tokens@);
        while j > 0
            invariant
                j <= self.tokens@.len(),
                token_map(self.tokens@.take(j as int)).contains_key(registry@)
                    == self.tokens().contains_key(registry@),
                token_map(self.tokens@.take(j as int)).contains_key(registry@) ==> token_map(
                    self.tokens@.take(j as int),
                )[registry@] == self.tokens()[registry@],
            decreases j,
        {
            let ghost prefix = self.tokens@.take(j as int);
            assert(prefix.drop_last() =~= self.tokens@.take(j - 1));
            if crate::text::str_eq(self.tokens[j - 1].0.as_str(), registry) {
                return Some(&self.tokens[j - 1].1);
            }
            j = j - 1;
        }
        None
    }

    /// Stores the token for `registry`, replacing any held before.
    pub fn store_token(&mut self, registry: &str, token: RegistryToken)
        ensures
            final(self).protocol() == old(self).protocol(),
            final(self).tokens() == old(self).tokens().insert(registry@, token.token@),
    {
        let entry = (String::from_str(registry), token);
        let mut j: usize = self.tokens.len();
        while j > 0
            invariant
                j <= self.tokens@.len(),
                self.tokens@ == old(self).tokens@,
                self.config == old(self).config,
                entry.0@ == registry@,
                entry.1.token@ == token.token@,
                forall|i: int| j <= i < self.tokens@.len() ==> (#[trigger] self.tokens@[i]).0@ != registry@,
            decreases j,
        {
            if crate::text::str_eq(self.tokens[j - 1].0.as_str(), registry) {
                proof {
                    lemma_token_map_update(self.tokens@, j - 1, entry);
                }
                self.tokens.set(j - 1, entry);
                return;
            }
            j = j - 1;
        }
        self.tokens.push(entry);
        assert(self.tokens@.drop_last() =~= old(self).tokens@);
    }

    /// `{scheme}://{registry}/v2/`, where the handshake starts.
    pub fn to_v2_base_url(&self, registry: &str) -> (r: String)
        ensures
            r@ == base_url_spec(self.protocol(), registry@),
    {
        let mut r = String::from_str(self.config.protocol.scheme_for(registry));
        r.append("://");
        r.append(registry);
        r.append("/v2/");
        r
    }

    /// The URL of the manifest that `reference` names.
    pub fn to_v2_manifest_url(&self, reference: &Reference) -> (r: String)
        ensures
            r@ == manifest_url_spec(
                self.protocol(),
                reference@.registry,
                reference@.repository,
                reference@.digest,
                reference@.tag,
            ),
    {
        let mut r = self.to_v2_base_url(reference.registry());
        r.append(reference.repository());
        r.append("/manifests/");
        match reference.digest() {
            Some(d) => r.append(d),
            None => match reference.tag() {
                Some(t) => r.append(t),
                None => r.append("latest"),
            },
        }
        r
    }

    /// The URL of the blob `digest` in `repository` on `registry`.
    pub fn to_v2_blob_url(&self, registry: &str, repository: &str, digest: &str) -> (r: String)
        ensures
            r@ == blob_url_spec(self.protocol(), registry@, repository@, digest@),
    {
        let mut r = self.to_v2_base_url(registry);
        r.append(repository);
        r.append("/blobs/");
        r.append(digest);
        r
    }

    /// The URL that opens a blob upload session for `reference`.
    pub fn to_v2_blob_upload_url(&self, reference: &Reference) -> (r: String)
        ensures
            r@ == blob_url_spec(
                self.protocol(),
                reference@.registry,
                reference@.repository,
                "uploads/"@,
            ),
    {
        self.to_v2_blob_url(reference.registry(), reference.repository(), "uploads/")
    }

    /// The headers of an authenticated request to the registry of `image`.
    pub fn auth_headers(&self, image: &Reference) -> (r: Vec<(String, String)>)
        ensures
            r@.len() == auth_headers_spec(self.tokens(), image@.registry).len(),
            forall|i: int|
                0 <= i < r@.len() ==> (#[trigger] r@[i]).0@ == auth_headers_spec(
                    self.tokens(),
                    image@.registry,
                )[i].0 && r@[i].1@ == auth_headers_spec(self.tokens(), image@.registry)[i].1,
    {
        let mut headers: Vec<(String, String)> = Vec::new();
        headers.push(
            (
                String::from_str("Accept"),
                String::from_str(
                    "application/vnd.docker.distribution.manifest.v2+json,application/vnd.docker.distribution.manifest.list.v2+json,application/vnd.oci.image.manifest.v1+json",
                ),
            ),
        );
        match self.token_for(image.registry()) {
            Some(t) => {
                headers.push((String::from_str("Authorization"), t.bearer_token()));
            },
            None => {},
        }
        headers
    }

    /// Resolves a `Location` header against the registry of `image`.
    pub fn location_header_to_url(&self, image: &Reference, location: &str) -> (r: String)
        ensures
            r@ == location_url_spec(self.protocol(), image@.registry, location@),
    {
        proof {
            reveal_strlit("/v2/");
        }
        if starts_with(location, "/v2/") {
            let mut r = String::from_str(self.config.protocol.scheme_for(image.registry()));
            r.append("://");
            r.append(image.registry());
            r.append(location);
            r
        } else {
            String::from_str(location)
        }
    }
}

impl Default for Client {
    fn default() -> (r: Self)
        ensures
            r.protocol() == ClientProtocol::Https,
            r.tokens() == Map::<Seq<char>, Seq<char>>::empty(),
    {
        Client::new(ClientConfig::default())
    }
}

} // verus!
