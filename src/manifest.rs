//! OCI image manifests and descriptors: their checks and their generation
//! from image data.

use vstd::prelude::*;
use crate::digest::{digest_of, sha256_digest};
use crate::errors::OciError;
use crate::image::ImageData;

verus! {

/// The media type of an OCI image manifest.
pub const IMAGE_MANIFEST_MEDIA_TYPE: &'static str = "application/vnd.oci.image.manifest.v1+json";

/// The annotation key under which a generated layer descriptor names itself.
pub const ANNOTATION_TITLE: &'static str = "org.opencontainers.image.title";

/// A reference to content by media type, digest and size.
#[derive(Debug, Clone)]
pub struct OciDescriptor {
    pub media_type: String,
    /// `sha256:<hex>` of the content.
    pub digest: String,
    /// The size of the content in bytes.
    pub size: i64,
    /// Key-value annotations, each key at most once.
    pub annotations: Option<Vec<(String, String)>>,
}

/// An OCI image manifest.
#[derive(Debug, Clone)]
pub struct OciManifest {
    pub schema_version: u32,
    pub media_type: Option<String>,
    pub config: OciDescriptor,
    pub layers: Vec<OciDescriptor>,
    pub annotations: Option<Vec<(String, String)>>,
}

/// The fields of a manifest that are checked before it is read as an OCI
/// image manifest.
#[derive(Debug, Clone)]
pub struct Versioned {
    pub schema_version: u32,
    pub media_type: Option<String>,
}

/// Checks that a manifest is of schema version 2 and, when it names its
/// media type, is an OCI image manifest.
pub fn validate_image_manifest(versioned: &Versioned) -> (r: Result<(), OciError>)
    ensures
        versioned.schema_version != 2 ==> r == Err::<(), _>(
            OciError::UnsupportedSchemaVersion(versioned.schema_version),
        ),
        versioned.schema_version == 2 && versioned.media_type is None ==> r is Ok,
        versioned.media_type matches Some(m) ==> (versioned.schema_version == 2 ==> {
            &&& m@ == IMAGE_MANIFEST_MEDIA_TYPE@ ==> r is Ok
            &&& m@ != IMAGE_MANIFEST_MEDIA_TYPE@ ==> (r matches Err(
                OciError::UnsupportedMediaType(e),
            ) && e@ == m@)
        }),
{
    if versioned.schema_version != 2 {
        return Err(OciError::UnsupportedSchemaVersion(versioned.schema_version));
    }
    match &versioned.media_type {
        Some(m) => {
            if crate::text::str_eq(m.as_str(), IMAGE_MANIFEST_MEDIA_TYPE) {
                Ok(())
            } else {
                Err(OciError::UnsupportedMediaType(m.clone()))
            }
        },
        None => Ok(()),
    }
}

/// Whether `media_type` is one of `accepted`.
pub open spec fn accepts(accepted: Seq<&str>, media_type: Seq<char>) -> bool {
    exists|k: int| 0 <= k < accepted.len() && (#[trigger] accepted[k])@ == media_type
}

/// Whether a manifest with these layers may be pulled: it has layers, and
/// each has an accepted media type.
pub open spec fn layers_acceptable(layers: Seq<OciDescriptor>, accepted: Seq<&str>) -> bool {
    layers.len() > 0 && forall|i: int|
        0 <= i < layers.len() ==> accepts(accepted, (#[trigger] layers[i]).media_type@)
}

fn is_accepted(accepted: &Vec<&str>, media_type: &str) -> (r: bool)
    ensures
        r == accepts(accepted@, media_type@),
{
    let mut k: usize = 0;
    while k < accepted.len()
        invariant
            k <= accepted@.len(),
            forall|j: int| 0 <= j < k ==> (#[trigger] accepted@[j])@ != media_type@,
        decreases accepted@.len() - k,
    {
        if crate::text::str_eq(accepted[k], media_type) {
            assert(accepted@[k as int]@ == media_type@);
            return true;
        }
        k = k + 1;
    }
    false
}

/// Checks, before any layer is fetched, that the manifest has layers and
/// that each layer's media type is accepted; otherwise names the first
/// layer media type that is not.
pub fn validate_layers(manifest: &OciManifest, accepted_media_types: &Vec<&str>) -> (r: Result<
    (),
    OciError,
>)
    ensures
        r is Ok <==> layers_acceptable(manifest.layers@, accepted_media_types@),
        manifest.layers@.len() == 0 ==> r == Err::<(), _>(OciError::NoLayers),
        r matches Err(OciError::IncompatibleLayerMediaType(m)) ==> exists|i: int|
            0 <= i < manifest.layers@.len() && (#[trigger] manifest.layers@[i]).media_type@ == m@
                && !accepts(accepted_media_types@, m@) && forall|j: int|
                0 <= j < i ==> accepts(
                    accepted_media_types@,
                    (#[trigger] manifest.layers@[j]).media_type@,
                ),
        r matches Err(e) ==> (e is NoLayers || e is IncompatibleLayerMediaType),
{
    if manifest.layers.len() == 0 {
        return Err(OciError::NoLayers);
    }
    let mut i: usize = 0;
    while i < manifest.layers.len()
        invariant
            i <= manifest.layers@.len(),
            forall|j: int|
                0 <= j < i ==> accepts(
                    accepted_media_types@,
                    (#[trigger] manifest.layers@[j]).media_type@,
                ),
        decreases manifest.layers@.len() - i,
    {
        let m = &manifest.layers[i].media_type;
        if !is_accepted(accepted_media_types, m.as_str()) {
            let e = m.clone();
            assert(manifest.layers@[i as int].media_type@ == e@);
            return Err(OciError::IncompatibleLayerMediaType(e));
        }
        i = i + 1;
    }
    Ok(())
}

/// No manifest is acceptable when no media type is accepted.
pub proof fn lemma_empty_accept_list_rejects(layers: Seq<OciDescriptor>)
    ensures
        !layers_acceptable(layers, Seq::<&str>::empty()),
{
    if layers.len() > 0 {
        assert(!accepts(Seq::<&str>::empty(), layers[0].media_type@));
    }
}

/// The descriptor generated for a layer with `data` of `media_type`.
pub open spec fn layer_descriptor_matches(d: OciDescriptor, data: Seq<u8>, media_type: Seq<char>) -> bool {
    &&& d.size == data.len() as i64
    &&& d.digest@ == digest_of(data)
    &&& d.media_type@ == media_type
    &&& d.annotations matches Some(a) && a@.len() == 1 && a@[0].0@ == ANNOTATION_TITLE@ && a@[0].1@
        == digest_of(data)
}

/// Synthesizes the manifest of an image: the config descriptor from the
/// config bytes, and one descriptor per layer, in order, each titled by its
/// digest.
pub fn generate_manifest(image_data: &ImageData, config_data: &[u8], config_media_type: &str) -> (r:
    OciManifest)
    ensures
        r.schema_version == 2,
        r.media_type matches Some(m) && m@ == IMAGE_MANIFEST_MEDIA_TYPE@,
        r.annotations is None,
        r.config.media_type@ == config_media_type@,
        r.config.size == config_data@.len() as i64,
        r.config.digest@ == digest_of(config_data@),
        r.config.annotations is None,
        r.layers@.len() == image_data.layers@.len(),
        forall|i: int|
            0 <= i < r.layers@.len() ==> layer_descriptor_matches(
                #[trigger] r.layers@[i],
                image_data.layers@[i].data@,
                image_data.layers@[i].media_type@,
            ),
{
    let config = OciDescriptor {
        media_type: String::from_str(config_media_type),
        digest: sha256_digest(config_data),
        size: config_data.len() as i64,
        annotations: None,
    };
    let mut layers: Vec<OciDescriptor> = Vec::new();
    let mut i: usize = 0;
    while i < image_data.layers.len()
        invariant
            i <= image_data.layers@.len(),
            layers@.len() == i,
            forall|j: int|
                0 <= j < i ==> layer_descriptor_matches(
                    #[trigger] layers@[j],
                    image_data.layers@[j].data@,
                    image_data.layers@[j].media_type@,
                ),
        decreases image_data.layers@.len() - i,
    {
        let layer = &image_data.layers[i];
        let digest = sha256_digest(layer.data.as_slice());
        let mut annotations: Vec<(String, String)> = Vec::new();
        annotations.push((String::from_str(ANNOTATION_TITLE), digest.clone()));
        let descriptor = OciDescriptor {
            media_type: layer.media_type.clone(),
            digest,
            size: layer.data.len() as i64,
            annotations: Some(annotations),
        };
        layers.push(descriptor);
        i = i + 1;
    }
    OciManifest {
        schema_version: 2,
        media_type: Some(String::from_str(IMAGE_MANIFEST_MEDIA_TYPE)),
        config,
        layers,
        annotations: None,
    }
}

} // verus!
