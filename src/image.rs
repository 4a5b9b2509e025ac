//! Image data: layers of bytes with their media types, and their digests.

use vstd::prelude::*;
use crate::digest::{digest_of, sha256_digest};

verus! {

/// The media type of an uncompressed OCI layer.
pub const IMAGE_LAYER_MEDIA_TYPE: &'static str = "application/vnd.oci.image.layer.v1.tar";

/// The media type of a gzip-compressed OCI layer.
pub const IMAGE_LAYER_GZIP_MEDIA_TYPE: &'static str = "application/vnd.oci.image.layer.v1.tar+gzip";

/// The media type of a WebAssembly module layer.
pub const WASM_LAYER_MEDIA_TYPE: &'static str = "application/vnd.wasm.content.layer.v1+wasm";

/// The media type of a WebAssembly module configuration.
pub const WASM_CONFIG_MEDIA_TYPE: &'static str = "application/vnd.wasm.config.v1+json";

/// The data and media type of an image layer.
#[derive(Debug, Clone)]
pub struct ImageLayer {
    /// The data of this layer.
    pub data: Vec<u8>,
    /// The media type of this layer.
    pub media_type: String,
}

/// The data of an image or module.
#[derive(Debug, Clone)]
pub struct ImageData {
    /// The layers of the image or module.
    pub layers: Vec<ImageLayer>,
    /// The digest of the image or module, when known.
    pub digest: Option<String>,
}

/// The bytes of all layers, one after the other, in order.
pub open spec fn layers_bytes(layers: Seq<ImageLayer>) -> Seq<u8>
    decreases layers.len(),
{
    if layers.len() == 0 {
        Seq::empty()
    } else {
        layers_bytes(layers.drop_last()) + layers.last().data@
    }
}

/// The bytes of two runs of layers are the bytes of each, joined.
pub proof fn lemma_layers_bytes_append(x: Seq<ImageLayer>, y: Seq<ImageLayer>)
    ensures
        layers_bytes(x + y) == layers_bytes(x) + layers_bytes(y),
    decreases y.len(),
{
    if y.len() == 0 {
        assert(x + y =~= x);
        assert(layers_bytes(x) + layers_bytes(y) =~= layers_bytes(x));
    } else {
        assert((x + y).drop_last() =~= x + y.drop_last());
        lemma_layers_bytes_append(x, y.drop_last());
        assert(layers_bytes(x + y) =~= layers_bytes(x) + layers_bytes(y));
    }
}

/// The digest of an image of layers `a` and `b` is the digest of the bytes
/// of `a` followed by those of `b`.
pub proof fn lemma_image_digest_concat(a: ImageLayer, b: ImageLayer)
    ensures
        digest_of(layers_bytes(seq![a, b])) == digest_of(a.data@ + b.data@),
{
    assert(seq![a, b].drop_last() =~= seq![a]);
    assert(seq![a].drop_last() =~= Seq::<ImageLayer>::empty());
    assert(seq![a].last() == a);
    assert(seq![a, b].last() == b);
    assert(layers_bytes(Seq::<ImageLayer>::empty()) =~= Seq::<u8>::empty());
    assert(layers_bytes(seq![a]) =~= a.data@);
    assert(layers_bytes(seq![a, b]) =~= a.data@ + b.data@);
}

/// Appends `bytes` to `out`.
pub fn append_bytes(out: &mut Vec<u8>, bytes: &[u8])
    ensures
        final(out)@ == old(out)@ + bytes@,
{
    let mut i: usize = 0;
    while i < bytes.len()
        invariant
            i <= bytes@.len(),
            out@ == old(out)@ + bytes@.subrange(0, i as int),
        decreases bytes@.len() - i,
    {
        out.push(bytes[i]);
        assert(out@ =~= old(out)@ + bytes@.subrange(0, i + 1));
        i = i + 1;
    }
    assert(bytes@.subrange(0, bytes@.len() as int) =~= bytes@);
}

impl ImageLayer {
    /// Constructs a layer from its data and media type.
    pub fn new(data: Vec<u8>, media_type: String) -> (r: Self)
        ensures
            r.data@ == data@,
            r.media_type@ == media_type@,
    {
        ImageLayer { data, media_type }
    }

    /// Constructs a layer of media type `application/vnd.oci.image.layer.v1.tar`.
    pub fn oci_v1(data: Vec<u8>) -> (r: Self)
        ensures
            r.data@ == data@,
            r.media_type@ == IMAGE_LAYER_MEDIA_TYPE@,
    {
        Self::new(data, String::from_str(IMAGE_LAYER_MEDIA_TYPE))
    }

    /// Constructs a layer of media type `application/vnd.oci.image.layer.v1.tar+gzip`.
    pub fn oci_v1_gzip(data: Vec<u8>) -> (r: Self)
        ensures
            r.data@ == data@,
            r.media_type@ == IMAGE_LAYER_GZIP_MEDIA_TYPE@,
    {
        Self::new(data, String::from_str(IMAGE_LAYER_GZIP_MEDIA_TYPE))
    }

    /// The digest of the layer's data.
    pub fn sha256_digest(self) -> (r: String)
        ensures
            r@ == digest_of(self.data@),
    {
        sha256_digest(self.data.as_slice())
    }
}

impl ImageData {
    /// The bytes of all layers, concatenated in order.
    pub fn layers_data(&self) -> (r: Vec<u8>)
        ensures
            r@ == layers_bytes(self.layers@),
    {
        let mut out: Vec<u8> = Vec::new();
        let mut i: usize = 0;
        while i < self.layers.len()
            invariant
                i <= self.layers@.len(),
                out@ == layers_bytes(self.layers@.take(i as int)),
            decreases self.layers@.len() - i,
        {
            append_bytes(&mut out, self.layers[i].data.as_slice());
            assert(self.layers@.take(i + 1).drop_last() =~= self.layers@.take(i as int));
            i = i + 1;
        }
        assert(self.layers@.take(i as int) =~= self.layers@);
        out
    }

    /// The digest of the concatenated layer data.
    pub fn sha256_digest(&self) -> (r: String)
        ensures
            r@ == digest_of(layers_bytes(self.layers@)),
    {
        let bytes = self.layers_data();
        sha256_digest(bytes.as_slice())
    }

    /// The stored digest, or else the digest of the layer data; the computed
    /// value is not stored.
    pub fn digest(&self) -> (r: String)
        ensures
            self.digest matches Some(d) ==> r@ == d@,
            self.digest is None ==> r@ == digest_of(layers_bytes(self.layers@)),
    {
        match &self.digest {
            Some(d) => d.clone(),
            None => self.sha256_digest(),
        }
    }
}

} // verus!
