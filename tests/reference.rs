use registry_containerd::reference::{resolve_image, ReferenceError};

#[test]
fn short_name_resolves_to_docker_hub() {
    let t = resolve_image(&"busybox".to_string()).ok().unwrap();
    assert_eq!(t.image_ref, "docker.io/library/busybox:latest");
    assert_eq!(t.server, "index.docker.io");
}

#[test]
fn explicit_registry_is_kept() {
    let t = resolve_image(&"ghcr.io/owner/app:v1".to_string()).ok().unwrap();
    assert_eq!(t.image_ref, "ghcr.io/owner/app:v1");
    assert_eq!(t.server, "ghcr.io");
}

#[test]
fn invalid_reference_is_rejected() {
    assert!(matches!(resolve_image(&String::new()), Err(ReferenceError::Invalid)));
    assert!(matches!(resolve_image(&"UPPER/Case:tag".to_string()), Err(ReferenceError::Invalid)));
}
