use vstd::prelude::*;
use crate::identity::{group_touches, merge_identity, overlay, passwd_touches, ImageLayer};
use crate::documents::{manifest_layers, manifest_well_formed, parse_manifest_layers};
use crate::json::{JsonValue, ProtocolError};
use crate::layers::{job_views, plan_layers, planned_jobs, string_views, LayerJob, PipelineError};

verus! {

/// The root filesystem section of an image configuration.
pub struct DockerRootfs {
    pub fs_type: String,
    /// One diff-id per uncompressed layer, oldest first.
    pub diff_ids: Vec<String>,
}

/// The runtime section of an image configuration; absent values are empty.
pub struct DockerImageConfig {
    pub user: String,
    pub env: Vec<String>,
    pub entrypoint: Vec<String>,
    pub cmd: Vec<String>,
    pub working_dir: String,
}

/// An image's declared configuration.
pub struct DockerConfigLayer {
    pub architecture: String,
    pub config: DockerImageConfig,
    pub rootfs: DockerRootfs,
}

/// The identity view of an image: its reference, its configuration and the
/// merged passwd and group files.
pub struct Container {
    pub image: String,
    pub config_layer: DockerConfigLayer,
    pub passwd: String,
    pub group: String,
}

/// The layers extracted so far for a list of planned jobs, in job order.
pub struct LayerRun {
    jobs: Vec<LayerJob>,
    layers: Vec<ImageLayer>,
}

impl LayerRun {
    pub closed spec fn jobs(&self) -> Seq<LayerJob> {
        self.jobs@
    }

    pub closed spec fn layers(&self) -> Seq<ImageLayer> {
        self.layers@
    }

    pub closed spec fn wf(&self) -> bool {
        self.layers@.len() <= self.jobs@.len() && forall|i: int|
            0 <= i < self.layers@.len() ==> self.layers@[i].diff_id@ == self.jobs@[i].diff_id@
    }

    pub fn new(jobs: Vec<LayerJob>) -> (r: LayerRun)
        ensures
            r.wf(),
            r.jobs() == jobs@,
            r.layers() == Seq::<ImageLayer>::empty(),
    {
        LayerRun { jobs, layers: Vec::new() }
    }

    /// The job whose layer comes next, or `None` once every job has one.
    pub fn next_job(&self) -> (r: Option<&LayerJob>)
        requires
            self.wf(),
        ensures
            self.layers().len() < self.jobs().len() ==> r == Some(&self.jobs()[self.layers().len() as int]),
            self.layers().len() == self.jobs().len() ==> r is None,
    {
        if self.layers.len() < self.jobs.len() {
            Some(&self.jobs[self.layers.len()])
        } else {
            None
        }
    }

    /// Records the layer of the next job, under that job's diff-id.
    pub fn record(&mut self, layer: ImageLayer)
        requires
            old(self).wf(),
            old(self).layers().len() < old(self).jobs().len(),
        ensures
            final(self).wf(),
            final(self).jobs() == old(self).jobs(),
            final(self).layers() == old(self).layers().push(
                ImageLayer {
                    diff_id: old(self).jobs()[old(self).layers().len() as int].diff_id,
                    ..layer
                },
            ),
    {
        let diff_id = self.jobs[self.layers.len()].diff_id.clone();
        self.layers.push(ImageLayer { diff_id, passwd: layer.passwd, group: layer.group });
    }

    /// The layers, one per job, once every job has its layer.
    pub fn into_layers(self) -> (r: Vec<ImageLayer>)
        requires
            self.wf(),
            self.layers().len() == self.jobs().len(),
        ensures
            r@ == self.layers(),
            r@.len() == self.jobs().len(),
    {
        self.layers
    }
}

/// Why the layers of an image could not be planned.
#[derive(PartialEq, Eq, Structural, Debug, Clone, Copy)]
pub enum LayersError {
    Protocol(ProtocolError),
    Pipeline(PipelineError),
}

/// Reads the manifest's layer list and pairs each recognized layer with its
/// diff-id, before any layer is fetched.
pub fn get_image_layers(manifest: &JsonValue, config_layer: &DockerConfigLayer) -> (r: Result<
    LayerRun,
    LayersError,
>)
    ensures
        !manifest_well_formed(*manifest) ==> r == Err::<LayerRun, LayersError>(
            LayersError::Protocol(ProtocolError::Malformed),
        ),
        manifest_well_formed(*manifest) ==> match planned_jobs(
            manifest_layers(*manifest),
            string_views(config_layer.rootfs.diff_ids@),
        ) {
            Some(p) => r matches Ok(run) && run.wf() && job_views(run.jobs()) == p
                && run.layers().len() == 0,
            None => r == Err::<LayerRun, LayersError>(LayersError::Pipeline(PipelineError::TooManyLayers)),
        },
{
    let layers = match parse_manifest_layers(manifest) {
        Ok(l) => l,
        Err(e) => return Err(LayersError::Protocol(e)),
    };
    match plan_layers(&layers, &config_layer.rootfs.diff_ids) {
        Ok(jobs) => Ok(LayerRun::new(jobs)),
        Err(e) => Err(LayersError::Pipeline(e)),
    }
}

impl Container {
    /// Builds the identity view from the image's layers, oldest first. With
    /// guest pull the layers are not read and both files stay empty.
    pub fn from_image_layers(
        image: String,
        config_layer: DockerConfigLayer,
        guest_pull: bool,
        layers: &Vec<ImageLayer>,
    ) -> (r: Container)
        ensures
            r.image == image,
            r.config_layer == config_layer,
            guest_pull ==> r.passwd@.len() == 0 && r.group@.len() == 0,
            !guest_pull ==> r.passwd@ == overlay(passwd_touches(layers@)) && r.group@ == overlay(
                group_touches(layers@),
            ),
    {
        if guest_pull {
            return Container { image, config_layer, passwd: String::new(), group: String::new() };
        }
        let (passwd, group) = merge_identity(layers);
        Container { image, config_layer, passwd, group }
    }
}

} // verus!
