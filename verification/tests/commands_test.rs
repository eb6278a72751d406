use cubic::commands::{ListImageCommand, RenameCommand};
use cubic::error::Error;
use cubic::instance::InstanceStore;
use cubic::models::{Arch, HashAlg, Image, Instance, InstanceName};
use std::cell::RefCell;

struct InstanceStoreMock {
    instances: Vec<Instance>,
    renamed: RefCell<Vec<(String, String)>>,
}

impl InstanceStoreMock {
    fn new(instances: Vec<Instance>) -> Self {
        Self {
            instances,
            renamed: RefCell::new(Vec::new()),
        }
    }
}

impl InstanceStore for InstanceStoreMock {
    fn load(&self, name: &InstanceName) -> Result<Instance, Error> {
        self.instances
            .iter()
            .find(|i| i.name == name.as_str())
            .cloned()
            .ok_or(Error::UnknownInstance(name.as_str().to_string()))
    }

    fn rename(&self, instance: Instance, new_name: &InstanceName) -> Result<(), Error> {
        self.renamed
            .borrow_mut()
            .push((instance.name.clone(), new_name.as_str().to_string()));
        Ok(())
    }
}

#[test]
fn test_rename_rejects_unknown_instance() {
    let store = InstanceStoreMock::new(Vec::new());

    let result = RenameCommand {
        old_name: InstanceName::from_str("missing").unwrap(),
        new_name: InstanceName::from_str("newname").unwrap(),
    }
    .run(&store);

    assert!(matches!(
        result,
        Err(Error::UnknownInstance(ref name)) if name == "missing"
    ));
    assert!(store.renamed.borrow().is_empty());
}

#[test]
fn test_rename_delegates_to_store() {
    let store = InstanceStoreMock::new(vec![Instance {
        name: "test".to_string(),
        ..Instance::default()
    }]);

    let result = RenameCommand {
        old_name: InstanceName::from_str("test").unwrap(),
        new_name: InstanceName::from_str("newname").unwrap(),
    }
    .run(&store);

    assert!(result.is_ok());
    assert_eq!(
        *store.renamed.borrow(),
        vec![("test".to_string(), "newname".to_string())]
    );
}

fn build_image(distro: &str, version: &str, arch: Arch, size: Option<u64>) -> Image {
    Image {
        distro: distro.to_string(),
        version: version.to_string(),
        codename: None,
        tags: Vec::new(),
        arch,
        image_url: String::new(),
        checksum_url: String::new(),
        hash_alg: HashAlg::Sha512,
        size,
    }
}

#[test]
fn test_list_images_shows_the_host_arch_only() {
    let images = vec![
        build_image("debian", "12", Arch::AMD64, Some(1024)),
        build_image("debian", "12", Arch::ARM64, Some(2048)),
        build_image("ubuntu", "24.04", Arch::AMD64, None),
    ];
    let rows = ListImageCommand::new(false).rows(&images, Arch::AMD64, &vec![true, false, false]);

    assert_eq!(rows.len(), 2);
    assert_eq!(rows[0].name, "debian:12");
    assert_eq!(rows[0].arch, "amd64");
    assert_eq!(rows[0].size, Some(1024));
    assert_eq!(rows[0].cached, "yes");
    assert_eq!(rows[1].name, "ubuntu:24.04");
    assert_eq!(rows[1].size, None);
    assert_eq!(rows[1].cached, "no");
}

#[test]
fn test_list_images_with_all_shows_every_arch() {
    let images = vec![
        build_image("debian", "12", Arch::AMD64, Some(1024)),
        build_image("debian", "12", Arch::ARM64, Some(2048)),
    ];
    let rows = ListImageCommand::new(true).rows(&images, Arch::AMD64, &vec![false, true]);

    assert_eq!(rows.len(), 2);
    assert_eq!(rows[1].arch, "arm64");
    assert_eq!(rows[1].cached, "yes");
    assert_eq!(ListImageCommand::header(), ["Name", "Arch", "Size", "Cached"]);
}
