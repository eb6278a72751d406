use cubic::models::{Arch, HashAlg, Image, ImageName, InstanceSnapshotName, SnapshotName};

fn build_image(distro: &str, version: &str, codename: Option<&str>) -> Image {
    Image {
        distro: distro.to_string(),
        version: version.to_string(),
        codename: codename.map(str::to_string),
        tags: Vec::new(),
        arch: Arch::AMD64,
        image_url: String::new(),
        checksum_url: String::new(),
        hash_alg: HashAlg::Sha512,
        size: None,
    }
}

// The host architecture is an argument of the parser; these tests use amd64.
const HOST: Arch = Arch::AMD64;

#[test]
fn test_get_image_name_uses_the_version() {
    assert_eq!(
        build_image("debian", "12", Some("bookworm")).get_image_name(),
        "debian:12"
    );
    assert_eq!(
        build_image("archlinux", Image::ROLLING, None).get_image_name(),
        "archlinux:rolling"
    );
}

#[test]
fn test_get_tags_joins_the_codename_and_the_derived_tags() {
    let mut ubuntu = build_image("ubuntu", "26.04", Some("resolute"));
    ubuntu.tags = vec!["stable".to_string(), "latest".to_string()];

    assert_eq!(ubuntu.get_tags(), "resolute, stable, latest");
    assert_eq!(build_image("fedora", "43", None).get_tags(), "");
}

#[test]
fn test_to_file_name_uses_name_and_arch() {
    assert_eq!(
        build_image("debian", "12", Some("bookworm")).to_file_name(),
        "debian_bookworm_amd64"
    );
    assert_eq!(
        build_image("archlinux", Image::ROLLING, None).to_file_name(),
        "archlinux_rolling_amd64"
    );
}

#[test]
fn test_ord_sorts_by_distro_then_version() {
    assert!(build_image("debian", "10", None) > build_image("debian", "9", None));
    assert!(build_image("ubuntu", "26.04", None) > build_image("ubuntu", "25.10", None));
    assert!(build_image("alma", "9", None) < build_image("debian", "1", None));
}

#[test]
fn test_parse_distro_name_and_arch() {
    let image = ImageName::parse("debian:bookworm", HOST).unwrap();
    assert_eq!(image.get_distro(), "debian");
    assert_eq!(image.get_name(), "bookworm");
    assert_eq!(image.get_arch(), HOST);

    let image = ImageName::parse("debian:bookworm:arm64", HOST).unwrap();
    assert_eq!(image.get_name(), "bookworm");
    assert_eq!(image.get_arch(), Arch::ARM64);
}

#[test]
fn test_bare_distro_is_stable() {
    let image = ImageName::parse("debian", HOST).unwrap();
    assert_eq!(image.get_distro(), "debian");
    assert_eq!(image.get_name(), "stable");
    assert_eq!(image.get_arch(), HOST);
}

#[test]
fn test_reject_unknown_arch() {
    assert!(ImageName::parse("debian:bookworm:mips", HOST).is_err());
}

#[test]
fn test_to_string() {
    assert_eq!(
        ImageName::parse("debian:bookworm:arm64", HOST)
            .unwrap()
            .to_string(),
        "debian:bookworm:arm64"
    );
}

#[test]
fn test_parse_both_forms() {
    let instance = InstanceSnapshotName::from_str("mymachine").unwrap();
    assert_eq!(instance.get_instance().as_str(), "mymachine");
    assert!(instance.get_snapshot().is_none());

    let snapshot = InstanceSnapshotName::from_str("mymachine/clean").unwrap();
    assert_eq!(snapshot.get_instance().as_str(), "mymachine");
    assert_eq!(snapshot.get_snapshot().unwrap().as_str(), "clean");
    assert_eq!(snapshot.to_string(), "mymachine/clean");
}

// The separator must not become a way back into the parent directory.
#[test]
fn test_reject_path_traversal() {
    assert!(InstanceSnapshotName::from_str("../../etc").is_err());
    assert!(InstanceSnapshotName::from_str("mymachine/..").is_err());
    assert!(InstanceSnapshotName::from_str("mymachine/clean/extra").is_err());
    assert!(InstanceSnapshotName::from_str("/clean").is_err());
}

#[test]
fn test_valid_name() {
    let snapshot = SnapshotName::from_str("mymachine/10clean-state_5").unwrap();

    assert_eq!(snapshot.get_instance().as_str(), "mymachine");
    assert_eq!(snapshot.as_str(), "10clean-state_5");
    assert_eq!(snapshot.to_string(), "mymachine/10clean-state_5");
}

#[test]
fn test_reject_invalid_names() {
    assert!(SnapshotName::from_str("clean").is_err());
    assert!(SnapshotName::from_str("mymachine/..").is_err());
    assert!(SnapshotName::from_str("mymachine/a/b").is_err());
    assert!(SnapshotName::from_str("/clean").is_err());
    assert!(SnapshotName::from_str("").is_err());
}
