use registry_containerd::cache::{begin_layer, finish_layer, ImageLayersCache, LayerStep};
use registry_containerd::container::{
    get_image_layers, Container, DockerConfigLayer, DockerImageConfig, DockerRootfs, LayerRun, LayersError,
};
use registry_containerd::content::{chunk_position, layer_file_name, ContentError};
use registry_containerd::credential::{
    build_auth, helper_reports_not_found, registry_server, CredentialError, CredentialLookup, Notice,
};
use registry_containerd::documents::{classify_content, parse_config_layer, parse_manifest_layers};
use registry_containerd::identity::{is_whiteout, merge_identity, ImageLayer, WHITEOUT_MARKER};
use registry_containerd::json::{JsonValue, ProtocolError};
use registry_containerd::layers::{
    is_gzip_media_type, plan_layers, LayerDescriptor, LayerJob, PipelineError, DOCKER_GZIP_LAYER,
    OCI_GZIP_LAYER,
};
use registry_containerd::manifest::{
    manifest_step, select_platform_manifest, ImageContent, IndexEntry, ManifestError, ManifestStep,
    Platform,
};

fn layer(diff_id: &str, passwd: &str, group: &str) -> ImageLayer {
    ImageLayer { diff_id: diff_id.to_string(), passwd: passwd.to_string(), group: group.to_string() }
}

fn desc(media_type: &str, digest: &str) -> LayerDescriptor {
    LayerDescriptor { media_type: media_type.to_string(), digest: digest.to_string() }
}

fn strings(v: &[&str]) -> Vec<String> {
    v.iter().map(|s| s.to_string()).collect()
}

fn text(s: &str) -> JsonValue {
    JsonValue::Text(s.to_string())
}

fn object(fields: Vec<(&str, JsonValue)>) -> JsonValue {
    JsonValue::Object(fields.into_iter().map(|(k, v)| (k.to_string(), v)).collect())
}

fn entry(arch: &str, os: &str, digest: &str) -> IndexEntry {
    IndexEntry { architecture: arch.to_string(), os: os.to_string(), digest: digest.to_string() }
}

fn empty_config(diff_ids: &[&str]) -> DockerConfigLayer {
    DockerConfigLayer {
        architecture: "amd64".to_string(),
        config: DockerImageConfig {
            user: String::new(),
            env: vec![],
            entrypoint: vec![],
            cmd: vec![],
            working_dir: String::new(),
        },
        rootfs: DockerRootfs { fs_type: "layers".to_string(), diff_ids: strings(diff_ids) },
    }
}

#[test]
fn merge_whiteout_persists_through_untouched_layer() {
    let layers = vec![
        layer("d1", "", ""),
        layer("d2", "a", ""),
        layer("d3", "", ""),
        layer("d4", "", ""),
        layer("d5", WHITEOUT_MARKER, ""),
        layer("d6", "", ""),
        layer("d7", "", ""),
    ];
    let (passwd, _group) = merge_identity(&layers);
    assert_eq!(passwd, "");
}

#[test]
fn merge_newest_group_wins() {
    let layers = vec![layer("d1", "", "g1"), layer("d2", "", ""), layer("d3", "", "g2")];
    let (_passwd, group) = merge_identity(&layers);
    assert_eq!(group, "g2");
}

#[test]
fn merge_empty_and_untouched() {
    let (p, g) = merge_identity(&vec![]);
    assert_eq!((p.as_str(), g.as_str()), ("", ""));
    let layers = vec![layer("d1", "root:x:0:0", "root:x:0:"), layer("d2", "", "")];
    let (p, g) = merge_identity(&layers);
    assert_eq!(p, "root:x:0:0");
    assert_eq!(g, "root:x:0:");
}

#[test]
fn merge_rewrite_after_whiteout() {
    let layers = vec![layer("d1", "a", "g"), layer("d2", WHITEOUT_MARKER, WHITEOUT_MARKER), layer("d3", "b", "")];
    let (p, g) = merge_identity(&layers);
    assert_eq!(p, "b");
    assert_eq!(g, "");
}

#[test]
fn whiteout_marker_recognized() {
    assert!(is_whiteout(&WHITEOUT_MARKER.to_string()));
    assert!(!is_whiteout(&"root".to_string()));
    assert!(!is_whiteout(&String::new()));
}

#[test]
fn plan_pairs_equal_counts() {
    let layers = vec![
        desc(DOCKER_GZIP_LAYER, "sha256:a"),
        desc("application/vnd.oci.image.config.v1+json", "sha256:x"),
        desc(OCI_GZIP_LAYER, "sha256:b"),
        desc(DOCKER_GZIP_LAYER, "sha256:c"),
    ];
    let jobs = plan_layers(&layers, &strings(&["d1", "d2", "d3"])).unwrap();
    assert_eq!(jobs.len(), 3);
    let got: Vec<(String, String)> = jobs.into_iter().map(|j| (j.digest, j.diff_id)).collect();
    assert_eq!(
        got,
        vec![
            ("sha256:a".to_string(), "d1".to_string()),
            ("sha256:b".to_string(), "d2".to_string()),
            ("sha256:c".to_string(), "d3".to_string()),
        ]
    );
}

#[test]
fn plan_too_many_layers_fails() {
    let layers = vec![desc(DOCKER_GZIP_LAYER, "sha256:a"), desc(OCI_GZIP_LAYER, "sha256:b")];
    let r = plan_layers(&layers, &strings(&["d1"]));
    assert_eq!(r.err(), Some(PipelineError::TooManyLayers));
}

#[test]
fn plan_empty_manifest() {
    let jobs = plan_layers(&vec![], &strings(&[])).unwrap();
    assert!(jobs.is_empty());
}

#[test]
fn media_types() {
    assert!(is_gzip_media_type(&DOCKER_GZIP_LAYER.to_string()));
    assert!(is_gzip_media_type(&OCI_GZIP_LAYER.to_string()));
    assert!(!is_gzip_media_type(&"application/vnd.oci.image.layer.v1.tar+zstd".to_string()));
}

#[test]
fn cache_second_call_does_no_work() {
    let mut cache = ImageLayersCache::new();
    let job = LayerJob { digest: "sha256:a".to_string(), diff_id: "d1".to_string() };
    let first = match begin_layer(&cache, &job) {
        LayerStep::Extract(j) => finish_layer(&mut cache, &j, "p".to_string(), "g".to_string()),
        LayerStep::Cached(_) => panic!("empty cache returned a layer"),
    };
    match begin_layer(&cache, &job) {
        LayerStep::Cached(l) => {
            assert_eq!(l.diff_id, first.diff_id);
            assert_eq!(l.passwd, first.passwd);
            assert_eq!(l.group, first.group);
        }
        LayerStep::Extract(_) => panic!("cached layer extracted again"),
    }
}

#[test]
fn cache_newest_insert_wins() {
    let mut cache = ImageLayersCache::new();
    cache.insert_layer(&layer("d1", "old", ""));
    cache.insert_layer(&layer("d2", "other", ""));
    cache.insert_layer(&layer("d1", "new", ""));
    assert_eq!(cache.get_layer(&"d1".to_string()).unwrap().passwd, "new");
    assert!(cache.get_layer(&"d3".to_string()).is_none());
}

#[test]
fn layer_run_yields_one_layer_per_job() {
    let layers = vec![desc(DOCKER_GZIP_LAYER, "sha256:a"), desc(OCI_GZIP_LAYER, "sha256:b")];
    let jobs = plan_layers(&layers, &strings(&["d1", "d2"])).unwrap();
    let mut run = LayerRun::new(jobs);
    let mut count = 0;
    while let Some(job) = run.next_job() {
        let digest = job.digest.clone();
        run.record(layer("ignored", &digest, ""));
        count += 1;
    }
    assert_eq!(count, 2);
    let out = run.into_layers();
    assert_eq!(out.len(), 2);
    assert_eq!(out[0].diff_id, "d1");
    assert_eq!(out[1].diff_id, "d2");
    assert_eq!(out[1].passwd, "sha256:b");
}

#[test]
fn container_guest_pull_skips_layers() {
    let layers = vec![layer("d1", "p", "g")];
    let c = Container::from_image_layers("img".to_string(), empty_config(&["d1"]), true, &layers);
    assert_eq!(c.passwd, "");
    assert_eq!(c.group, "");
    let c = Container::from_image_layers("img".to_string(), empty_config(&["d1"]), false, &layers);
    assert_eq!(c.image, "img");
    assert_eq!(c.passwd, "p");
    assert_eq!(c.group, "g");
}

#[test]
fn credential_absent_is_anonymous() {
    for lookup in [
        CredentialLookup::ConfigNotFound,
        CredentialLookup::NoCredentialConfigured,
        CredentialLookup::ConfigReadError,
    ] {
        let r = build_auth(lookup).ok().unwrap();
        assert!(r.auth.is_none());
        assert_eq!(r.notice, Notice::Quiet);
    }
}

#[test]
fn credential_helper_failures() {
    let r = build_auth(CredentialLookup::HelperFailure {
        stdout: "credentials not found in native keychain\n".to_string(),
        stderr: String::new(),
    })
    .ok()
    .unwrap();
    assert!(r.auth.is_none());
    assert_eq!(r.notice, Notice::Quiet);
    let r = build_auth(CredentialLookup::HelperFailure {
        stdout: "boom".to_string(),
        stderr: "bad".to_string(),
    })
    .ok()
    .unwrap();
    assert!(r.auth.is_none());
    assert_eq!(r.notice, Notice::Warning);
    assert!(!helper_reports_not_found(&"credentials not found".to_string()));
}

#[test]
fn credential_found() {
    let r = build_auth(CredentialLookup::UsernamePassword("u".to_string(), "p".to_string())).ok().unwrap();
    let a = r.auth.unwrap();
    assert_eq!((a.username.as_str(), a.password.as_str(), a.identity_token.as_str()), ("u", "p", ""));
    let r = build_auth(CredentialLookup::IdentityToken("tok".to_string())).ok().unwrap();
    let a = r.auth.unwrap();
    assert_eq!((a.username.as_str(), a.password.as_str(), a.identity_token.as_str()), ("", "", "tok"));
}

#[test]
fn credential_unrecognized_is_fatal() {
    match build_auth(CredentialLookup::Unrecognized("weird".to_string())) {
        Err(CredentialError::Unrecoverable(m)) => assert_eq!(m, "weird"),
        Ok(_) => panic!("unrecognized credential failure accepted"),
    }
}

#[test]
fn registry_server_strips_one_slash() {
    assert_eq!(registry_server(&"index.docker.io/".to_string()), "index.docker.io");
    assert_eq!(registry_server(&"ghcr.io".to_string()), "ghcr.io");
    assert_eq!(registry_server(&"a//".to_string()), "a/");
    assert_eq!(registry_server(&String::new()), "");
}

#[test]
fn platform_index_picks_matching_entry() {
    let entries = vec![entry("arm64", "linux", "sha256:arm"), entry("amd64", "linux", "sha256:amd")];
    let target = Platform::default_target();
    assert_eq!(select_platform_manifest(&entries, &target), Ok("sha256:amd".to_string()));
    let entries = vec![entry("arm64", "linux", "sha256:arm"), entry("amd64", "windows", "sha256:win")];
    assert_eq!(select_platform_manifest(&entries, &target), Err(ManifestError::NoMatchingPlatform));
}

#[test]
fn platform_index_first_match_wins() {
    let entries = vec![entry("amd64", "linux", "sha256:one"), entry("amd64", "linux", "sha256:two")];
    let target = Platform::default_target();
    assert_eq!(select_platform_manifest(&entries, &target), Ok("sha256:one".to_string()));
}

#[test]
fn manifest_step_cases() {
    let target = Platform::default_target();
    assert!(matches!(manifest_step(&ImageContent::Manifest, &target), Ok(ManifestStep::UseContent)));
    let index = ImageContent::Index(vec![entry("amd64", "linux", "sha256:m")]);
    match manifest_step(&index, &target) {
        Ok(ManifestStep::Fetch(d)) => assert_eq!(d, "sha256:m"),
        _ => panic!("expected a fetch"),
    }
    let index = ImageContent::Index(vec![]);
    assert!(matches!(manifest_step(&index, &target), Err(ManifestError::NoMatchingPlatform)));
}

#[test]
fn negative_chunk_offset_fails() {
    assert_eq!(chunk_position(-1), Err(ContentError::NegativeOffset));
    assert_eq!(chunk_position(i64::MIN), Err(ContentError::NegativeOffset));
    assert_eq!(chunk_position(0), Ok(0));
    assert_eq!(chunk_position(4096), Ok(4096));
}

#[test]
fn file_name_from_digest() {
    assert_eq!(layer_file_name(&"sha256:abc".to_string()), "sha256-abc");
    assert_eq!(layer_file_name(&"a:b:c".to_string()), "a-b-c");
    assert_eq!(layer_file_name(&String::new()), "");
}

#[test]
fn parse_manifest_document() {
    let manifest = object(vec![
        ("schemaVersion", JsonValue::Number("2".to_string())),
        (
            "layers",
            JsonValue::Array(vec![
                object(vec![("mediaType", text(DOCKER_GZIP_LAYER)), ("digest", text("sha256:a"))]),
                object(vec![("mediaType", text(OCI_GZIP_LAYER)), ("digest", text("sha256:b"))]),
            ]),
        ),
    ]);
    let layers = parse_manifest_layers(&manifest).unwrap();
    assert_eq!(layers.len(), 2);
    assert_eq!(layers[1].digest, "sha256:b");
    assert!(matches!(classify_content(&manifest), Ok(ImageContent::Manifest)));
    let broken = object(vec![("layers", JsonValue::Array(vec![object(vec![("digest", text("x"))])]))]);
    assert_eq!(parse_manifest_layers(&broken).err(), Some(ProtocolError::Malformed));
    assert_eq!(parse_manifest_layers(&JsonValue::Null).err(), Some(ProtocolError::Malformed));
}

#[test]
fn parse_index_document() {
    let platform = |a: &str, o: &str| object(vec![("architecture", text(a)), ("os", text(o))]);
    let index = object(vec![(
        "manifests",
        JsonValue::Array(vec![
            object(vec![("digest", text("sha256:arm")), ("platform", platform("arm64", "linux"))]),
            object(vec![("digest", text("sha256:amd")), ("platform", platform("amd64", "linux"))]),
        ]),
    )]);
    match classify_content(&index) {
        Ok(content) => match manifest_step(&content, &Platform::default_target()) {
            Ok(ManifestStep::Fetch(d)) => assert_eq!(d, "sha256:amd"),
            _ => panic!("expected a fetch"),
        },
        Err(_) => panic!("index rejected"),
    }
    let no_platform = object(vec![("manifests", JsonValue::Array(vec![object(vec![("digest", text("x"))])]))]);
    assert!(matches!(classify_content(&no_platform), Err(ProtocolError::Malformed)));
    assert!(matches!(classify_content(&object(vec![])), Err(ProtocolError::Malformed)));
}

#[test]
fn parse_config_document() {
    let status = object(vec![(
        "imageSpec",
        object(vec![
            ("architecture", text("amd64")),
            (
                "config",
                object(vec![
                    ("User", text("1000")),
                    ("Env", JsonValue::Array(vec![text("PATH=/bin")])),
                    ("Cmd", JsonValue::Null),
                ]),
            ),
            (
                "rootfs",
                object(vec![
                    ("type", text("layers")),
                    ("diff_ids", JsonValue::Array(vec![text("sha256:d1"), text("sha256:d2")])),
                ]),
            ),
        ]),
    )]);
    let c = parse_config_layer(&status).unwrap();
    assert_eq!(c.rootfs.diff_ids, strings(&["sha256:d1", "sha256:d2"]));
    assert_eq!(c.config.user, "1000");
    assert_eq!(c.config.env, strings(&["PATH=/bin"]));
    assert!(c.config.cmd.is_empty());
    assert!(c.config.entrypoint.is_empty());
    assert_eq!(c.architecture, "amd64");
    let missing = object(vec![("imageSpec", object(vec![("architecture", text("amd64"))]))]);
    assert_eq!(parse_config_layer(&missing).err(), Some(ProtocolError::Malformed));
    assert_eq!(parse_config_layer(&object(vec![])).err(), Some(ProtocolError::Malformed));
}

fn manifest_with(media_types: &[&str]) -> JsonValue {
    let layers = media_types
        .iter()
        .enumerate()
        .map(|(i, m)| object(vec![("mediaType", text(m)), ("digest", text(&format!("sha256:{i}")))]))
        .collect();
    object(vec![("layers", JsonValue::Array(layers))])
}

#[test]
fn image_layers_one_record_per_diff_id() {
    let manifest = manifest_with(&[DOCKER_GZIP_LAYER, "application/vnd.oci.empty.v1+json", OCI_GZIP_LAYER]);
    let mut run = get_image_layers(&manifest, &empty_config(&["d1", "d2"])).unwrap();
    let mut digests = vec![];
    while let Some(job) = run.next_job() {
        digests.push(job.digest.clone());
        run.record(layer("x", "", ""));
    }
    assert_eq!(digests, strings(&["sha256:0", "sha256:2"]));
    let out = run.into_layers();
    assert_eq!(out.len(), 2);
    assert_eq!(out[0].diff_id, "d1");
    assert_eq!(out[1].diff_id, "d2");
}

#[test]
fn image_layers_too_many_gzip_layers() {
    let manifest = manifest_with(&[DOCKER_GZIP_LAYER, OCI_GZIP_LAYER, DOCKER_GZIP_LAYER]);
    let r = get_image_layers(&manifest, &empty_config(&["d1", "d2"]));
    assert_eq!(r.err(), Some(LayersError::Pipeline(PipelineError::TooManyLayers)));
}

#[test]
fn image_layers_malformed_manifest() {
    let r = get_image_layers(&object(vec![("config", JsonValue::Null)]), &empty_config(&[]));
    assert_eq!(r.err(), Some(LayersError::Protocol(ProtocolError::Malformed)));
}
