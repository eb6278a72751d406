use cubic::image::{ImageFactory, ImageProvider, UbuntuImageProvider};
use cubic::models::{Arch, HashAlg, Image, ImageName};
use regex::Regex;

fn build_image(distro: &str, version: &str, codename: Option<&str>, arch: Arch) -> Image {
    Image {
        distro: distro.to_string(),
        version: version.to_string(),
        codename: codename.map(str::to_string),
        tags: Vec::new(),
        arch,
        image_url: "image_url".to_string(),
        checksum_url: "checksum_url".to_string(),
        hash_alg: HashAlg::Sha256,
        size: None,
    }
}

#[test]
fn test_tag_images_tags_the_newest_and_the_newest_lts() {
    let images = vec![
        build_image("ubuntu", "24.04", Some("noble"), Arch::AMD64),
        build_image("ubuntu", "25.10", Some("questing"), Arch::AMD64),
        build_image("ubuntu", "25.04", Some("plucky"), Arch::AMD64),
    ];

    let images = ImageFactory::tag_images(images);

    assert_eq!(images[0].get_tags(), "noble, stable");
    assert_eq!(images[1].get_tags(), "plucky");
    assert_eq!(images[2].get_tags(), "questing, latest");
}

#[test]
fn test_tag_images_tags_each_arch_on_its_own() {
    let images = vec![
        build_image("ubuntu", "24.04", Some("noble"), Arch::AMD64),
        build_image("ubuntu", "26.04", Some("resolute"), Arch::AMD64),
        build_image("ubuntu", "24.04", Some("noble"), Arch::ARM64),
    ];

    let images = ImageFactory::tag_images(images);
    let find_tags = |version: &str, arch: Arch| {
        images
            .iter()
            .find(|image| image.get_version() == version && image.arch == arch)
            .map(|image| image.get_tags())
            .unwrap()
    };

    assert_eq!(find_tags("24.04", Arch::AMD64), "noble");
    assert_eq!(find_tags("26.04", Arch::AMD64), "resolute, stable, latest");
    assert_eq!(find_tags("24.04", Arch::ARM64), "noble, stable, latest");
}

#[test]
fn test_tag_images_tags_a_rolling_release() {
    let images = vec![build_image("archlinux", Image::ROLLING, None, Arch::AMD64)];

    let images = ImageFactory::tag_images(images);

    assert_eq!(images[0].get_image_name(), "archlinux:rolling");
    assert_eq!(images[0].get_tags(), "stable, latest");
}

#[test]
fn test_find_matching_image_matches_distro_arch_and_name() {
    let images = vec![
        build_image("almalinux", "9", None, Arch::AMD64),
        build_image("debian", "12", Some("bookworm"), Arch::AMD64),
    ];
    let filter = ImageName::parse("debian:bookworm:amd64", Arch::AMD64).unwrap();

    let found = ImageFactory::find_matching_image(&images, &filter);

    assert_eq!(found, Some(images[1].clone()));
}

#[test]
fn test_find_matching_image_returns_none_on_a_mismatch() {
    let images = vec![build_image("debian", "12", Some("bookworm"), Arch::AMD64)];

    for name in [
        "ubuntu:bookworm:amd64",
        "debian:bookworm:arm64",
        "debian:bullseye:amd64",
    ] {
        let filter = ImageName::parse(name, Arch::AMD64).unwrap();

        assert_eq!(ImageFactory::find_matching_image(&images, &filter), None);
    }
}

#[test]
fn test_filter_arch_keeps_the_filtered_arch_only() {
    let filter = ImageName::parse("debian:bookworm:arm64", Arch::AMD64).unwrap();

    assert_eq!(
        ImageFactory::filter_arch(None),
        vec![Arch::AMD64, Arch::ARM64]
    );
    assert_eq!(ImageFactory::filter_arch(Some(filter)), vec![Arch::ARM64]);
}

#[test]
fn test_find_image_names_in_listing() {
    let listing = r#"<a href="jammy/">jammy/</a>
<a href="noble/">noble/</a>"#;

    assert_eq!(
        UbuntuImageProvider {}.find_image_names(listing),
        ["jammy", "noble"]
    );
}

#[test]
fn test_get_version_and_codename() {
    let provider = UbuntuImageProvider {};

    assert_eq!(
        provider.get_version("ubuntu-24.04-minimal-cloudimg-amd64.img", "noble"),
        "24.04"
    );
    assert_eq!(provider.get_codename("noble"), Some("noble".to_string()));
}

#[test]
fn test_image_file_pattern_matches_image_file() {
    let pattern = UbuntuImageProvider {}.get_image_file_pattern("noble", Arch::ARM64);

    assert!(
        Regex::new(&pattern)
            .unwrap()
            .is_match("ubuntu-24.04-minimal-cloudimg-arm64.img")
    );
}

#[test]
fn test_after_fetch_falls_back_to_the_cache() {
    let cached = vec![build_image("debian", "12", Some("bookworm"), Arch::AMD64)];

    let (images, store) = ImageFactory::after_fetch(Vec::new(), Some(cached.clone()), false);
    assert_eq!(images, cached);
    assert!(!store);

    let fetched = vec![build_image("debian", "13", Some("trixie"), Arch::AMD64)];
    let (images, store) = ImageFactory::after_fetch(fetched.clone(), Some(cached), false);
    assert_eq!(images, fetched);
    assert!(store);

    let (images, store) = ImageFactory::after_fetch(fetched.clone(), None, true);
    assert_eq!(images, fetched);
    assert!(!store);
}

#[test]
fn test_finish_read_tags_and_filters() {
    let images = vec![
        build_image("debian", "13", Some("trixie"), Arch::AMD64),
        build_image("debian", "12", Some("bookworm"), Arch::AMD64),
    ];

    let all = ImageFactory::finish_read(images.clone(), None);
    assert_eq!(all[0].get_version(), "12");
    assert_eq!(all[1].get_tags(), "trixie, stable, latest");

    let filter = ImageName::parse("debian:stable", Arch::AMD64).unwrap();
    let found = ImageFactory::finish_read(images.clone(), Some(filter));
    assert_eq!(found.len(), 1);
    assert_eq!(found[0].get_version(), "13");

    let filter = ImageName::parse("debian:buster", Arch::AMD64).unwrap();
    assert!(ImageFactory::finish_read(images, Some(filter)).is_empty());
}

#[test]
fn test_first_image_names_the_missing_image() {
    let name = ImageName::parse("debian:buster", Arch::AMD64).unwrap();
    match ImageFactory::first_image(Vec::new(), &name) {
        Err(cubic::error::Error::UnknownImage(text)) => assert_eq!(text, "debian:buster:amd64"),
        other => panic!("unexpected {other:?}"),
    }
    let image = build_image("debian", "12", Some("bookworm"), Arch::AMD64);
    assert_eq!(
        ImageFactory::first_image(vec![image.clone()], &name).unwrap(),
        image
    );
}

#[test]
fn test_wants_provider_follows_the_filter() {
    let filter = Some(ImageName::parse("ubuntu:noble", Arch::AMD64).unwrap());
    assert!(ImageFactory::wants_provider(&None, "debian"));
    assert!(ImageFactory::wants_provider(&filter, "ubuntu"));
    assert!(!ImageFactory::wants_provider(&filter, "debian"));
}

#[test]
fn test_describe_an_ubuntu_image() {
    let provider = UbuntuImageProvider {};
    let dir_url = ImageFactory::image_dir_url(&provider, "noble", Arch::ARM64);
    assert_eq!(
        dir_url,
        "https://cloud-images.ubuntu.com/minimal/releases/noble/release/"
    );

    let listing = r#"<a href="./ubuntu-24.04-minimal-cloudimg-arm64.img">img</a>
<a href="ubuntu-24.04-minimal-cloudimg-amd64.img">img</a>"#;
    let pattern = provider.get_image_file_pattern("noble", Arch::ARM64);
    let file = ImageFactory::find_image_file(listing, &pattern).unwrap();
    assert_eq!(file, "ubuntu-24.04-minimal-cloudimg-arm64.img");
    assert_eq!(ImageFactory::find_image_file("no links", &pattern), None);

    let image = ImageFactory::describe_image(&provider, "noble", Arch::ARM64, &dir_url, &file, 4096);
    assert_eq!(image.distro, "ubuntu");
    assert_eq!(image.version, "24.04");
    assert_eq!(image.codename, Some("noble".to_string()));
    assert_eq!(image.image_url, format!("{dir_url}{file}"));
    assert_eq!(image.checksum_url, format!("{dir_url}SHA256SUMS"));
    assert_eq!(image.hash_alg, HashAlg::Sha256);
    assert_eq!(image.size, Some(4096));
    assert!(image.tags.is_empty());
}

#[test]
fn test_tag_images_keeps_equal_images_in_input_order() {
    let images = vec![
        build_image("ubuntu", "24.04", Some("noble"), Arch::ARM64),
        build_image("debian", "12", Some("bookworm"), Arch::AMD64),
        build_image("ubuntu", "24.04", Some("noble"), Arch::AMD64),
    ];

    let images = ImageFactory::tag_images(images);

    assert_eq!(images[0].distro, "debian");
    assert_eq!(images[1].arch, Arch::ARM64);
    assert_eq!(images[2].arch, Arch::AMD64);
}

#[test]
fn test_read_steps_follow_the_fetches() {
    let cache = Some(vec![build_image("debian", "12", Some("bookworm"), Arch::AMD64)]);
    assert!(ImageFactory::uses_cache(&cache, true));
    assert!(!ImageFactory::uses_cache(&cache, false));
    assert!(!ImageFactory::uses_cache(&None, true));

    let provider = UbuntuImageProvider {};
    let pattern = provider.get_image_file_pattern("noble", Arch::AMD64);
    assert_eq!(ImageFactory::listed_image_file(None, &pattern), None);
    let file = ImageFactory::listed_image_file(
        Some(r#"<a href="ubuntu-24.04-minimal-cloudimg-amd64.img">img</a>"#),
        &pattern,
    )
    .unwrap();
    assert_eq!(file, "ubuntu-24.04-minimal-cloudimg-amd64.img");

    let dir_url = ImageFactory::image_dir_url(&provider, "noble", Arch::AMD64);
    assert!(ImageFactory::sized_image(&provider, "noble", Arch::AMD64, &dir_url, &file, None).is_none());
    let image =
        ImageFactory::sized_image(&provider, "noble", Arch::AMD64, &dir_url, &file, Some(7)).unwrap();
    assert_eq!(image.size, Some(7));
    assert_eq!(image.version, "24.04");
}

#[test]
fn test_provider_lookups_pair_each_release_with_each_arch() {
    let names = vec!["jammy".to_string(), "noble".to_string()];
    assert_eq!(
        ImageFactory::provider_lookups(&names, &None),
        vec![
            ("jammy".to_string(), Arch::AMD64),
            ("jammy".to_string(), Arch::ARM64),
            ("noble".to_string(), Arch::AMD64),
            ("noble".to_string(), Arch::ARM64),
        ]
    );
    let filter = Some(ImageName::parse("ubuntu:noble:arm64", Arch::AMD64).unwrap());
    assert_eq!(
        ImageFactory::provider_lookups(&names, &filter),
        vec![("jammy".to_string(), Arch::ARM64), ("noble".to_string(), Arch::ARM64)]
    );
}
