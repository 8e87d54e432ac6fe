use tp::package::Package;
use tp::skeleton::{
    publish_result, skeleton_dir_name, skeleton_manifest, skeleton_source, PublishError,
    PUBLISH_COOLDOWN_SECS, TOKEN_VARIABLE,
};

fn bare(name: &str) -> Package {
    Package {
        name: name.to_string(),
        id: format!("{}-id", name),
        version: "1.2.3".to_string(),
        description: None,
        license: None,
        repository: None,
        publish: None,
    }
}

#[test]
fn a_bare_package_gets_the_defaults() {
    assert_eq!(
        skeleton_manifest(&bare("facet")),
        "[package]\nname = \"facet\"\nversion = \"0.0.0\"\nedition = \"2024\"\ndescription = \"Placeholder for trusted publishing setup\"\nlicense = \"MIT OR Apache-2.0\"\n"
    );
}

#[test]
fn the_manifest_copies_what_the_package_has() {
    let mut pkg = bare("facet");
    pkg.description = Some("Reflection for \"Rust\"".to_string());
    pkg.license = Some("MIT".to_string());
    pkg.repository = Some("https://github.com/facet-rs/facet".to_string());
    assert_eq!(
        skeleton_manifest(&pkg),
        "[package]\nname = \"facet\"\nversion = \"0.0.0\"\nedition = \"2024\"\ndescription = \"Reflection for \\\"Rust\\\"\"\nlicense = \"MIT\"\nrepository = \"https://github.com/facet-rs/facet\"\n"
    );
}

#[test]
fn the_version_of_the_placeholder_is_the_lowest() {
    let text = skeleton_manifest(&bare("x"));
    assert!(text.contains("version = \"0.0.0\"\n"));
    assert!(!text.contains("1.2.3"));
}

#[test]
fn the_source_of_the_placeholder() {
    assert_eq!(skeleton_source(), "//! Placeholder crate for trusted publishing setup.\n");
}

#[test]
fn the_scratch_directory_carries_the_name() {
    assert_eq!(skeleton_dir_name("facet-json"), "tp-skeleton-facet-json");
}

#[test]
fn the_exit_status_decides_the_publish_result() {
    assert_eq!(publish_result("facet", true), Ok(()));
    assert_eq!(
        publish_result("facet", false),
        Err(PublishError::Refused { package: "facet".to_string() })
    );
}

#[test]
fn the_fixed_values_of_publishing() {
    assert_eq!(PUBLISH_COOLDOWN_SECS, 10);
    assert_eq!(TOKEN_VARIABLE, "CARGO_REGISTRY_TOKEN");
}
