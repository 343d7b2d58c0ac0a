use vstd::prelude::*;
use crate::identity::ImageLayer;

verus! {

/// Media type of a Docker-style gzip-compressed layer.
pub const DOCKER_GZIP_LAYER: &'static str = "application/vnd.docker.image.rootfs.diff.tar.gzip";

/// Media type of an OCI-style gzip-compressed layer.
pub const OCI_GZIP_LAYER: &'static str = "application/vnd.oci.image.layer.v1.tar+gzip";

/// One layer entry of an image manifest.
pub struct LayerDescriptor {
    pub media_type: String,
    pub digest: String,
}

/// A recognized manifest layer paired with the diff-id that it produces.
pub struct LayerJob {
    pub digest: String,
    pub diff_id: String,
}

#[derive(PartialEq, Eq, Structural, Debug, Clone, Copy)]
pub enum PipelineError {
    /// The manifest lists more recognized gzip layers than the config has diff-ids.
    TooManyLayers,
}

pub open spec fn is_gzip_layer(media_type: Seq<char>) -> bool {
    media_type == DOCKER_GZIP_LAYER@ || media_type == OCI_GZIP_LAYER@
}

/// Media type and digest of each manifest layer.
pub open spec fn descriptor_views(ls: Seq<LayerDescriptor>) -> Seq<(Seq<char>, Seq<char>)> {
    ls.map_values(|l: LayerDescriptor| (l.media_type@, l.digest@))
}

/// The digests of the recognized layers, in manifest order, from each layer's
/// media type and digest.
pub open spec fn gzip_digests(layers: Seq<(Seq<char>, Seq<char>)>) -> Seq<Seq<char>>
    decreases layers.len(),
{
    if layers.len() == 0 {
        Seq::empty()
    } else {
        let before = gzip_digests(layers.drop_last());
        if is_gzip_layer(layers.last().0) {
            before.push(layers.last().1)
        } else {
            before
        }
    }
}

pub open spec fn string_views(v: Seq<String>) -> Seq<Seq<char>> {
    v.map_values(|s: String| s@)
}

/// The jobs that a manifest and a diff-id list give: each recognized layer is
/// paired with the next unused diff-id; too few diff-ids is a failure.
pub open spec fn planned_jobs(layers: Seq<(Seq<char>, Seq<char>)>, diff_ids: Seq<Seq<char>>) -> Option<
    Seq<(Seq<char>, Seq<char>)>,
> {
    let digests = gzip_digests(layers);
    if digests.len() <= diff_ids.len() {
        Some(Seq::new(digests.len(), |i: int| (digests[i], diff_ids[i])))
    } else {
        None
    }
}

pub open spec fn job_views(jobs: Seq<LayerJob>) -> Seq<(Seq<char>, Seq<char>)> {
    jobs.map_values(|j: LayerJob| (j.digest@, j.diff_id@))
}

/// Whether a manifest layer's media type is one of the two gzip layer types.
pub fn is_gzip_media_type(media_type: &String) -> (r: bool)
    ensures
        r == is_gzip_layer(media_type@),
{
    let docker: String = DOCKER_GZIP_LAYER.to_owned();
    let oci: String = OCI_GZIP_LAYER.to_owned();
    *media_type == docker || *media_type == oci
}

/// Pairs each recognized manifest layer, in order, with the config's diff-id at
/// the same position among the recognized layers.
pub fn plan_layers(layers: &Vec<LayerDescriptor>, diff_ids: &Vec<String>) -> (r: Result<
    Vec<LayerJob>,
    PipelineError,
>)
    ensures
        r is Ok <==> planned_jobs(descriptor_views(layers@), string_views(diff_ids@)) is Some,
        r is Ok ==> planned_jobs(descriptor_views(layers@), string_views(diff_ids@)) == Some(
            job_views(r->Ok_0@),
        ),
        r is Err ==> r == Err::<Vec<LayerJob>, PipelineError>(PipelineError::TooManyLayers),
{
    let mut digests: Vec<String> = Vec::new();
    let mut i: usize = 0;
    while i < layers.len()
        invariant
            i <= layers.len(),
            string_views(digests@) == gzip_digests(descriptor_views(layers@.subrange(0, i as int))),
        decreases layers.len() - i,
    {
        let ghost prefix = layers@.subrange(0, i as int);
        assert(descriptor_views(layers@.subrange(0, i + 1)).drop_last() =~= descriptor_views(prefix));
        if is_gzip_media_type(&layers[i].media_type) {
            digests.push(layers[i].digest.clone());
            assert(string_views(digests@) =~= gzip_digests(descriptor_views(prefix)).push(
                layers@[i as int].digest@,
            ));
        }
        i = i + 1;
    }
    assert(layers@.subrange(0, layers.len() as int) =~= layers@);
    if digests.len() > diff_ids.len() {
        return Err(PipelineError::TooManyLayers);
    }
    let mut jobs: Vec<LayerJob> = Vec::new();
    let mut k: usize = 0;
    while k < digests.len()
        invariant
            k <= digests.len() <= diff_ids.len(),
            string_views(digests@) == gzip_digests(descriptor_views(layers@)),
            jobs@.len() == k,
            forall|j: int|
                0 <= j < k ==> jobs@[j].digest@ == digests@[j]@ && jobs@[j].diff_id@
                    == diff_ids@[j]@,
        decreases digests.len() - k,
    {
        jobs.push(LayerJob { digest: digests[k].clone(), diff_id: diff_ids[k].clone() });
        k = k + 1;
    }
    let ghost d = gzip_digests(descriptor_views(layers@));
    assert(job_views(jobs@) =~= Seq::new(d.len(), |j: int| (d[j], string_views(diff_ids@)[j])));
    Ok(jobs)
}

/// With exactly as many diff-ids as recognized layers, planning succeeds with
/// one job per recognized layer.
pub proof fn lemma_plan_one_job_per_layer(layers: Seq<(Seq<char>, Seq<char>)>, diff_ids: Seq<Seq<char>>)
    requires
        gzip_digests(layers).len() == diff_ids.len(),
    ensures
        planned_jobs(layers, diff_ids) is Some,
        planned_jobs(layers, diff_ids)->Some_0.len() == diff_ids.len(),
{
}

/// With more recognized layers than diff-ids, planning fails.
pub proof fn lemma_plan_too_many_layers(layers: Seq<(Seq<char>, Seq<char>)>, diff_ids: Seq<Seq<char>>)
    requires
        gzip_digests(layers).len() > diff_ids.len(),
    ensures
        planned_jobs(layers, diff_ids) is None,
{
}

} // verus!
