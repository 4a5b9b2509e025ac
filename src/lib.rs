//! A client library for the OCI Distribution protocol: image references,
//! registry URLs, bearer-token authentication decisions, manifest checks and
//! the chunked blob upload protocol, each with a machine-checked contract.

pub mod auth;
pub mod client;
pub mod digest;
pub mod errors;
pub mod image;
pub mod manifest;
pub mod protocol;
pub mod push;
pub mod reference;
pub mod response;
pub mod text;
pub mod volume_mount;

pub use auth::{
    AuthError, BearerChallenge, RegistryAuth, RegistryOperation, RegistryToken, TokenRequest,
};
pub use client::Client;
pub use digest::sha256_digest;
pub use errors::OciError;
pub use image::{ImageData, ImageLayer};
pub use manifest::{OciDescriptor, OciManifest, Versioned};
pub use protocol::{ClientConfig, ClientConfigSource, ClientProtocol};
pub use reference::{Reference, ReferenceError};
pub use volume_mount::VolumeMount;
