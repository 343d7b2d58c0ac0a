use vstd::prelude::*;
use crate::identity::ImageLayer;
use crate::layers::LayerJob;

verus! {

/// The newest cached layer with the given diff-id.
pub open spec fn cached(entries: Seq<ImageLayer>, diff_id: Seq<char>) -> Option<ImageLayer>
    decreases entries.len(),
{
    if entries.len() == 0 {
        None
    } else if entries.last().diff_id@ == diff_id {
        Some(entries.last())
    } else {
        cached(entries.drop_last(), diff_id)
    }
}

/// Extracted layers, looked up by diff-id; a later insertion for the same
/// diff-id takes the place of an earlier one.
pub struct ImageLayersCache {
    entries: Vec<ImageLayer>,
}

impl View for ImageLayersCache {
    type V = Seq<ImageLayer>;

    closed spec fn view(&self) -> Seq<ImageLayer> {
        self.entries@
    }
}

impl ImageLayersCache {
    pub fn new() -> (r: ImageLayersCache)
        ensures
            r@ == Seq::<ImageLayer>::empty(),
    {
        ImageLayersCache { entries: Vec::new() }
    }

    pub fn get_layer(&self, diff_id: &String) -> (r: Option<ImageLayer>)
        ensures
            r == cached(self@, diff_id@),
    {
        let mut i: usize = self.entries.len();
        assert(self@.subrange(0, i as int) =~= self@);
        while i > 0
            invariant
                i <= self.entries.len(),
                cached(self@, diff_id@) == cached(self@.subrange(0, i as int), diff_id@),
            decreases i,
        {
            let ghost prefix = self@.subrange(0, i as int);
            assert(prefix.last() == self@[i - 1]);
            if self.entries[i - 1].diff_id == *diff_id {
                return Some(self.entries[i - 1].duplicate());
            }
            assert(prefix.drop_last() =~= self@.subrange(0, i - 1));
            i = i - 1;
        }
        None
    }

    pub fn insert_layer(&mut self, layer: &ImageLayer)
        ensures
            final(self)@ == old(self)@.push(*layer),
    {
        self.entries.push(layer.duplicate());
    }
}

/// What to do for one planned layer.
pub enum LayerStep {
    /// The cache already holds the layer: no fetch and no decompression.
    Cached(ImageLayer),
    /// The layer must be fetched, decompressed and inspected.
    Extract(LayerJob),
}

/// Decides, by the cache alone, whether a planned layer needs any work.
pub fn begin_layer(cache: &ImageLayersCache, job: &LayerJob) -> (r: LayerStep)
    ensures
        match cached(cache@, job.diff_id@) {
            Some(l) => r == LayerStep::Cached(l),
            None => r == LayerStep::Extract(*job),
        },
{
    match cache.get_layer(&job.diff_id) {
        Some(l) => LayerStep::Cached(l),
        None => LayerStep::Extract(LayerJob { digest: job.digest.clone(), diff_id: job.diff_id.clone() }),
    }
}

/// Records the identity files extracted from a planned layer in the cache and
/// returns the layer.
pub fn finish_layer(cache: &mut ImageLayersCache, job: &LayerJob, passwd: String, group: String) -> (r: ImageLayer)
    ensures
        r == (ImageLayer { diff_id: job.diff_id, passwd, group }),
        final(cache)@ == old(cache)@.push(r),
{
    let layer = ImageLayer { diff_id: job.diff_id.clone(), passwd, group };
    cache.insert_layer(&layer);
    layer
}

/// Once a layer has been extracted and recorded, a second lookup of the same
/// diff-id finds exactly that layer, so no further work is done for it.
pub proof fn lemma_cache_idempotent(entries: Seq<ImageLayer>, layer: ImageLayer)
    ensures
        cached(entries.push(layer), layer.diff_id@) == Some(layer),
{
    assert(entries.push(layer).last() == layer);
}

} // verus!
