//! The chunked blob upload: the byte ranges sent for each chunk, the
//! cursor that advances over them, and the URL that closes a session.

use vstd::prelude::*;
use crate::errors::OciError;
use crate::image::{layers_bytes, ImageLayer};
use crate::text::{decimal, push_decimal};

verus! {

/// The headers and cursor of one `PATCH` in an upload session.
#[derive(Debug, Clone)]
pub struct ChunkPlan {
    /// The offset of the chunk's first byte.
    pub start_byte: usize,
    /// The offset just past the chunk: where the next chunk starts.
    pub next_byte: usize,
    /// The `Content-Range` value: `{start}-{end}`, both inclusive.
    pub content_range: String,
    /// The `Content-Length` value: the chunk's size.
    pub content_length: String,
}

/// The chunk of `len` bytes at `start`, as its plan holds it.
pub open spec fn chunk_matches(p: ChunkPlan, start: nat, len: nat) -> bool {
    &&& len > 0
    &&& p.start_byte == start
    &&& p.next_byte == start + len
    &&& p.content_range@ == decimal(start) + "-"@ + decimal((start + len - 1) as nat)
    &&& p.content_length@ == decimal(len)
}

/// Plans the chunk of `len` bytes that starts at `start_byte`; a chunk
/// without data is refused.
pub fn push_layer_plan(start_byte: usize, len: usize) -> (r: Result<ChunkPlan, OciError>)
    requires
        start_byte + len <= usize::MAX,
    ensures
        len == 0 ==> r == Err::<ChunkPlan, _>(OciError::EmptyLayer),
        len > 0 ==> (r matches Ok(p) && chunk_matches(p, start_byte as nat, len as nat)),
{
    if len == 0 {
        return Err(OciError::EmptyLayer);
    }
    let end_byte = start_byte + len - 1;
    let mut content_range = String::new();
    push_decimal(&mut content_range, start_byte);
    content_range.append("-");
    push_decimal(&mut content_range, end_byte);
    let mut content_length = String::new();
    push_decimal(&mut content_length, len);
    assert(content_range@ =~= decimal(start_byte as nat) + "-"@ + decimal(end_byte as nat));
    assert(content_length@ =~= decimal(len as nat));
    Ok(ChunkPlan { start_byte, next_byte: end_byte + 1, content_range, content_length })
}

/// The sum of the sizes.
pub open spec fn sum_sizes(sizes: Seq<nat>) -> nat
    decreases sizes.len(),
{
    if sizes.len() == 0 {
        0
    } else {
        sum_sizes(sizes.drop_last()) + sizes.last()
    }
}

/// The cursor after pushing chunks of `sizes`, in order, from `start`: each
/// push moves it from its start to its `next_byte`.
pub open spec fn cursor_after(start: nat, sizes: Seq<nat>) -> nat
    decreases sizes.len(),
{
    if sizes.len() == 0 {
        start
    } else {
        cursor_after(start + sizes[0], sizes.drop_first())
    }
}

proof fn lemma_sum_sizes_first(sizes: Seq<nat>)
    requires
        sizes.len() > 0,
    ensures
        sum_sizes(sizes) == sizes[0] + sum_sizes(sizes.drop_first()),
    decreases sizes.len(),
{
    if sizes.len() > 1 {
        lemma_sum_sizes_first(sizes.drop_last());
        assert(sizes.drop_last().drop_first() =~= sizes.drop_first().drop_last());
        assert(sizes.drop_first().last() == sizes.last());
        assert(sizes.drop_last()[0] == sizes[0]);
    } else {
        assert(sizes.drop_first().len() == 0);
        assert(sizes.drop_last().len() == 0);
        assert(sum_sizes(sizes.drop_first()) == 0);
        assert(sum_sizes(sizes.drop_last()) == 0);
        assert(sizes.last() == sizes[0]);
    }
}

/// Pushing chunks of sizes `s1 .. sN` one after another from offset `start`
/// leaves the cursor at `start + s1 + ... + sN`.
pub proof fn lemma_push_cursor(start: nat, sizes: Seq<nat>)
    ensures
        cursor_after(start, sizes) == start + sum_sizes(sizes),
    decreases sizes.len(),
{
    if sizes.len() > 0 {
        lemma_push_cursor(start + sizes[0], sizes.drop_first());
        lemma_sum_sizes_first(sizes);
    }
}

/// The size of each layer's data, in order.
pub open spec fn layer_sizes(layers: Seq<ImageLayer>) -> Seq<nat> {
    layers.map_values(|l: ImageLayer| l.data@.len())
}

proof fn lemma_layers_bytes_len(layers: Seq<ImageLayer>)
    ensures
        layers_bytes(layers).len() == sum_sizes(layer_sizes(layers)),
    decreases layers.len(),
{
    if layers.len() > 0 {
        lemma_layers_bytes_len(layers.drop_last());
        assert(layer_sizes(layers).drop_last() =~= layer_sizes(layers.drop_last()));
    }
}

/// Plans the chunks that upload `layers` one after another in a single
/// session starting at offset 0: each chunk starts where the previous one
/// ended. Fails if a layer has no data.
pub fn plan_layer_uploads(layers: &Vec<ImageLayer>) -> (r: Result<Vec<ChunkPlan>, OciError>)
    requires
        layers_bytes(layers@).len() <= usize::MAX,
    ensures
        r is Ok <==> forall|i: int| 0 <= i < layers@.len() ==> (#[trigger] layers@[i]).data@.len() > 0,
        r matches Err(e) ==> e == OciError::EmptyLayer,
        r matches Ok(plans) ==> {
            &&& plans@.len() == layers@.len()
            &&& forall|i: int|
                0 <= i < plans@.len() ==> chunk_matches(
                    #[trigger] plans@[i],
                    sum_sizes(layer_sizes(layers@.take(i))),
                    layers@[i].data@.len(),
                )
            &&& plans@.len() > 0 ==> plans@.last().next_byte == layers_bytes(layers@).len()
        },
{
    let mut plans: Vec<ChunkPlan> = Vec::new();
    let mut cursor: usize = 0;
    let mut i: usize = 0;
    proof {
        lemma_layers_bytes_len(layers@);
    }
    while i < layers.len()
        invariant
            i <= layers@.len(),
            plans@.len() == i,
            sum_sizes(layer_sizes(layers@)) <= usize::MAX,
            cursor == sum_sizes(layer_sizes(layers@.take(i as int))),
            forall|j: int| 0 <= j < i ==> (#[trigger] layers@[j]).data@.len() > 0,
            forall|j: int|
                0 <= j < i ==> chunk_matches(
                    #[trigger] plans@[j],
                    sum_sizes(layer_sizes(layers@.take(j))),
                    layers@[j].data@.len(),
                ),
            i > 0 ==> plans@.last().next_byte == cursor,
        decreases layers@.len() - i,
    {
        let len = layers[i].data.len();
        proof {
            let sizes = layer_sizes(layers@);
            assert(layer_sizes(layers@.take(i + 1)).drop_last() =~= layer_sizes(
                layers@.take(i as int),
            ));
            assert(layer_sizes(layers@.take(i + 1)) =~= sizes.take(i + 1));
            assert(layer_sizes(layers@.take(i as int)) =~= sizes.take(i as int));
            lemma_sum_sizes_prefix(sizes, i + 1);
        }
        match push_layer_plan(cursor, len) {
            Ok(p) => {
                plans.push(p);
            },
            Err(e) => {
                return Err(e);
            },
        }
        cursor = cursor + len;
        i = i + 1;
    }
    assert(layers@.take(i as int) =~= layers@);
    Ok(plans)
}

proof fn lemma_sum_sizes_prefix(sizes: Seq<nat>, k: int)
    requires
        0 <= k <= sizes.len(),
    ensures
        sum_sizes(sizes.take(k)) <= sum_sizes(sizes),
    decreases sizes.len() - k,
{
    if k < sizes.len() {
        lemma_sum_sizes_prefix(sizes, k + 1);
        assert(sizes.take(k + 1).drop_last() =~= sizes.take(k));
    } else {
        assert(sizes.take(k) =~= sizes);
    }
}

/// The URL that closes an upload session at `location` with the blob's digest.
pub fn end_push_url(location: &str, digest: &str) -> (r: String)
    ensures
        r@ == location@ + "&digest="@ + digest@,
{
    let mut r = String::from_str(location);
    r.append("&digest=");
    r.append(digest);
    r
}

} // verus!
