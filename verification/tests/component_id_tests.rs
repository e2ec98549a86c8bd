use std::str::FromStr;
use venom::component_id::{ComponentId, ComponentIdError};

fn comp(input: &str) -> ComponentId {
    ComponentId::from_str(input).unwrap()
}

#[test]
fn test_defaults_to_docker_io_and_library() {
    let c = comp("nginx");
    assert_eq!(c.registry(), "docker.io");
    assert_eq!(c.namespace(), None);
    assert_eq!(c.name(), "nginx");
    assert_eq!(c.tag(), "latest");
}

#[test]
fn test_custom_tag_without_registry_or_namespace() {
    let c = comp("nginx:1.21.0");
    assert_eq!(c.registry(), "docker.io");
    assert_eq!(c.namespace(), None);
    assert_eq!(c.name(), "nginx");
    assert_eq!(c.tag(), "1.21.0");
}

#[test]
fn test_with_namespace() {
    let c = comp("stratio/nginx:1.2");
    assert_eq!(c.registry(), "docker.io");
    assert_eq!(c.namespace(), Some(&"stratio".to_string()));
    assert_eq!(c.name(), "nginx");
    assert_eq!(c.tag(), "1.2");
}

#[test]
fn test_with_registry_namespace_and_tag() {
    let c = comp("ghcr.io/stratio/nginx:v2.0");
    assert_eq!(c.registry(), "ghcr.io");
    assert_eq!(c.namespace(), Some(&"stratio".to_string()));
    assert_eq!(c.name(), "nginx");
    assert_eq!(c.tag(), "v2.0");
}

#[test]
fn test_with_nested_namespace() {
    let c = comp("ghcr.io/team/a/b/c:v4");
    assert_eq!(c.registry(), "ghcr.io");
    assert_eq!(c.namespace(), Some(&"team/a/b".to_string()));
    assert_eq!(c.name(), "c");
    assert_eq!(c.tag(), "v4");
}

#[test]
fn test_display_roundtrip() {
    let input = "ghcr.io/stratio/nginx:v2.0";
    let c = ComponentId::from_str(input).unwrap();
    assert_eq!(c.canonical_string(), input);
}

#[test]
fn test_invalid_format_empty() {
    let err = ComponentId::from_str("").unwrap_err();
    assert!(matches!(err, ComponentIdError::InvalidFormat(_)));
}

#[test]
fn test_invalid_format_just_colon() {
    let err = ComponentId::from_str(":").unwrap_err();
    assert!(matches!(err, ComponentIdError::InvalidFormat(_)));
}

#[test]
fn blank_input_is_invalid() {
    let err = ComponentId::parse("   ").unwrap_err();
    assert!(matches!(err, ComponentIdError::InvalidFormat(_)));
}

#[test]
fn name_resolving_to_empty_is_invalid() {
    let err = ComponentId::parse("ghcr.io/team/:v1").unwrap_err();
    assert!(matches!(err, ComponentIdError::InvalidFormat(_)));
}

#[test]
fn unicode_spacing_only_input_is_invalid() {
    let err = ComponentId::parse("\u{A0}\u{2003}\u{3000}").unwrap_err();
    assert!(matches!(err, ComponentIdError::InvalidFormat(_)));
}

#[test]
fn canonical_form_reparses_to_the_same_identity() {
    for input in ["nginx", "stratio/nginx:1.2", "ghcr.io/team/a/b/c:v4", "host:5000/app"] {
        let first = comp(input);
        let again = comp(first.canonical_string().as_str());
        assert_eq!(first, again);
    }
}

#[test]
fn canonical_form_spells_out_defaults() {
    let c = comp("nginx");
    assert_eq!(c.canonical_string(), "docker.io/nginx:latest");
}

#[test]
fn localhost_is_a_registry() {
    let c = comp("localhost/app");
    assert_eq!(c.registry(), "localhost");
    assert_eq!(c.namespace(), None);
    assert_eq!(c.name(), "app");
}

#[test]
fn registry_port_is_not_a_tag() {
    let c = comp("host:5000/app");
    assert_eq!(c.registry(), "host:5000");
    assert_eq!(c.namespace(), None);
    assert_eq!(c.name(), "app");
    assert_eq!(c.tag(), "latest");
}

#[test]
fn nested_namespace_without_registry() {
    let c = comp("team/a/b");
    assert_eq!(c.registry(), "docker.io");
    assert_eq!(c.namespace(), Some(&"team/a".to_string()));
    assert_eq!(c.name(), "b");
}

#[test]
fn component_id_equality_is_by_content() {
    let a = comp("ghcr.io/team/app:v1");
    let b = comp("ghcr.io/team/app:v1");
    let c = comp("ghcr.io/team/app:v2");
    assert_eq!(a, b);
    assert_ne!(a, c);
}
