//! The errors of manifest checks, uploads and registry answers.

use vstd::prelude::*;

verus! {

/// Why an operation against a registry failed.
#[derive(Debug, Clone, PartialEq, Eq)]
pub enum OciError {
    /// The manifest declares a schema version other than 2.
    UnsupportedSchemaVersion(u32),
    /// The manifest declares a media type other than the OCI image manifest.
    UnsupportedMediaType(String),
    /// The manifest lists no layers.
    NoLayers,
    /// A layer's media type is not among the accepted ones.
    IncompatibleLayerMediaType(String),
    /// A layer without data cannot be pushed.
    EmptyLayer,
    /// The registry did not send a `Location` header.
    MissingLocationHeader,
    /// The registry did not send a `Docker-Content-Digest` header.
    MissingDigestHeader,
    /// The registry answered with a status other than the one expected.
    UnexpectedStatus(u16),
}

} // verus!
