use crate::models::{Arch, HashAlg};
use vstd::prelude::*;

verus! {

/// Where and how a distribution publishes its cloud images.
pub trait ImageProvider {
    fn get_distro(&self) -> &str;

    fn get_base_url(&self) -> &str;

    fn find_image_names(&self, content: &str) -> Vec<String>;

    fn get_image_dir_path(&self, name: &str, arch: Arch) -> String;

    fn get_image_file_pattern(&self, name: &str, arch: Arch) -> String;

    fn get_checksum_file(&self, image_file: &str, name: &str, arch: Arch) -> String;

    fn get_checksum_alg(&self) -> HashAlg;

    /// Release version, by default the name of the release directory
    fn get_version(&self, image_file: &str, name: &str) -> (r: String)
        default_ensures
            r@ == name@,
    {
        name.to_owned()
    }

    /// Release codename, for the distributions that have one
    fn get_codename(&self, name: &str) -> (r: Option<String>)
        default_ensures
            r is None,
    {
        None
    }

    /// The stable release among the versions of one architecture, sorted
    /// oldest first; by default the newest.
    fn find_stable_version(&self, versions: &Vec<String>) -> (r: Option<String>)
        default_ensures
            r.deep_view() == newest_version(versions.deep_view()),
    {
        newest(versions)
    }
}

/// The newest of versions sorted oldest first.
pub open spec fn newest_version(versions: Seq<Seq<char>>) -> Option<Seq<char>> {
    if versions.len() == 0 {
        None
    } else {
        Some(versions.last())
    }
}

/// The last of the versions, sorted oldest first.
pub fn newest(versions: &Vec<String>) -> (r: Option<String>)
    ensures
        r.deep_view() == newest_version(versions.deep_view()),
{
    if versions.len() == 0 {
        None
    } else {
        Some(crate::text::copy_str(versions[versions.len() - 1].as_str()))
    }
}

} // verus!
