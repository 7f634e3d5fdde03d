use mcpg_operator::oci_pull::{
    digest_of, digests_match, pin_to_digest, registry_from_reference, repository_of,
};

#[test]
fn registry_from_reference_handles_dotted_host() {
    assert_eq!(
        registry_from_reference("ghcr.io/mcpg-dev/plugins/foo:1.0"),
        "ghcr.io"
    );
    assert_eq!(
        registry_from_reference("registry.example.com:5000/foo:1.0"),
        "registry.example.com:5000"
    );
}

#[test]
fn repository_of_strips_tags_digests_and_keeps_registry_ports() {
    assert_eq!(
        repository_of("ghcr.io/mcpg-dev/plugins/foo:1.0"),
        "ghcr.io/mcpg-dev/plugins/foo"
    );
    assert_eq!(
        repository_of("ghcr.io/mcpg-dev/plugins/foo@sha256:abcd"),
        "ghcr.io/mcpg-dev/plugins/foo"
    );
    assert_eq!(
        repository_of("registry.example.com:5000/foo/bar"),
        "registry.example.com:5000/foo/bar"
    );
    assert_eq!(
        repository_of("registry.example.com:5000/foo/bar:2.1"),
        "registry.example.com:5000/foo/bar"
    );
    assert_eq!(repository_of("nginx:alpine"), "nginx");
    assert_eq!(repository_of("ghcr.io/org/repo"), "ghcr.io/org/repo");
}

#[test]
fn pin_to_digest_replaces_a_tag_rather_than_appending_to_it() {
    assert_eq!(
        pin_to_digest("ghcr.io/org/repo:1.0", "sha256:abcd"),
        "ghcr.io/org/repo@sha256:abcd"
    );
    assert_eq!(
        pin_to_digest("ghcr.io/org/repo@sha256:0000", "sha256:abcd"),
        "ghcr.io/org/repo@sha256:abcd"
    );
}

#[test]
fn digest_of_reads_only_a_digest_pin() {
    assert_eq!(
        digest_of("ghcr.io/org/repo@sha256:abcd").as_deref(),
        Some("sha256:abcd")
    );
    assert_eq!(digest_of("ghcr.io/org/repo:1.0"), None);
}

#[test]
fn digests_match_tolerates_prefix_and_case_only() {
    assert!(digests_match("sha256:ABCD", "abcd"));
    assert!(digests_match("sha256:abcd", "sha256:abcd"));
    assert!(!digests_match("sha256:abcd", "sha256:abce"));
}

#[test]
fn registry_from_reference_falls_back_to_dockerhub() {
    assert_eq!(registry_from_reference("nginx:alpine"), "index.docker.io");
    assert_eq!(
        registry_from_reference("library/nginx:alpine"),
        "index.docker.io"
    );
}
