use crate::image::image_provider::ImageProvider;
use crate::models::{Arch, HashAlg};
use crate::text::{copy_str, is_digit, push_str};
use crate::util::find::{captured_texts, regex_group_matches};
use crate::util::find_and_extract;
use vstd::prelude::*;

verus! {

/// The pattern of a release directory in the listing of all releases.
pub open spec fn release_dir_pattern() -> Seq<char> {
    "href=\\\"([a-z]+)/\\\""@
}

/// The pattern that takes the version out of an image file name.
pub open spec fn version_pattern() -> Seq<char> {
    "ubuntu-([^-]+)-minimal-cloudimg-[^.]+.img"@
}

/// The pattern of the image file of an architecture.
pub open spec fn image_file_pattern(arch: Arch) -> Seq<char> {
    "ubuntu-[0-9]+\\.[0-9]+-minimal-cloudimg-"@ + arch.name_spec() + ".img"@
}

/// A long term support release: an even year, released in April (`YY.04`).
pub open spec fn is_lts_version(v: Seq<char>) -> bool {
    &&& v.len() == 5
    &&& is_digit(v[0])
    &&& v[1] == '0' || v[1] == '2' || v[1] == '4' || v[1] == '6' || v[1] == '8'
    &&& v[2] == '.'
    &&& v[3] == '0'
    &&& v[4] == '4'
}

/// The newest long term support release among versions sorted oldest first.
pub open spec fn newest_lts(versions: Seq<Seq<char>>) -> Option<Seq<char>>
    decreases versions.len(),
{
    if versions.len() == 0 {
        None
    } else if is_lts_version(versions.last()) {
        Some(versions.last())
    } else {
        newest_lts(versions.drop_last())
    }
}

/// The version taken out of an image file name, else the release name.
pub open spec fn version_from(found: Seq<Seq<char>>, name: Seq<char>) -> Seq<char> {
    if found.len() > 0 {
        found[0]
    } else {
        name
    }
}

/// Ubuntu's minimal cloud images.
pub struct UbuntuImageProvider {}

impl UbuntuImageProvider {
    /// Whether a version is a long term support release.
    pub fn is_lts(v: &str) -> (r: bool)
        ensures
            r == is_lts_version(v@),
    {
        let c = crate::text::chars_of(v);
        c.len() == 5 && '0' <= c[0] && c[0] <= '9' && (c[1] == '0' || c[1] == '2' || c[1] == '4'
            || c[1] == '6' || c[1] == '8') && c[2] == '.' && c[3] == '0' && c[4] == '4'
    }

    /// The version from the first match in the image file name, else the
    /// release name.
    pub fn pick_version(found: &Vec<String>, name: &str) -> (r: String)
        ensures
            r@ == version_from(found.deep_view(), name@),
    {
        if found.len() > 0 {
            copy_str(found[0].as_str())
        } else {
            name.to_owned()
        }
    }
}

impl ImageProvider for UbuntuImageProvider {
    fn get_distro(&self) -> (r: &str)
        ensures
            r@ == "ubuntu"@,
    {
        "ubuntu"
    }

    fn get_base_url(&self) -> (r: &str)
        ensures
            r@ == "https://cloud-images.ubuntu.com/minimal/releases/"@,
    {
        "https://cloud-images.ubuntu.com/minimal/releases/"
    }

    fn find_image_names(&self, content: &str) -> (r: Vec<String>)
        ensures
            r.deep_view() == captured_texts(regex_group_matches(release_dir_pattern(), content@)),
    {
        find_and_extract("href=\\\"([a-z]+)/\\\"", content)
    }

    fn get_image_dir_path(&self, name: &str, _arch: Arch) -> (r: String)
        ensures
            r@ == name@ + "/release/"@,
    {
        let mut r = name.to_owned();
        push_str(&mut r, "/release/");
        r
    }

    fn get_version(&self, image_file: &str, name: &str) -> (r: String)
        ensures
            r@ == version_from(
                captured_texts(regex_group_matches(version_pattern(), image_file@)),
                name@,
            ),
    {
        let found = find_and_extract("ubuntu-([^-]+)-minimal-cloudimg-[^.]+.img", image_file);
        UbuntuImageProvider::pick_version(&found, name)
    }

    fn get_codename(&self, name: &str) -> (r: Option<String>)
        ensures
            r.deep_view() == Some(name@),
    {
        Some(name.to_owned())
    }

    fn get_image_file_pattern(&self, _name: &str, arch: Arch) -> (r: String)
        ensures
            r@ == image_file_pattern(arch),
    {
        let mut r = "ubuntu-[0-9]+\\.[0-9]+-minimal-cloudimg-".to_owned();
        push_str(&mut r, arch.as_vendor_str());
        push_str(&mut r, ".img");
        r
    }

    fn get_checksum_file(&self, _image_file: &str, _name: &str, _arch: Arch) -> (r: String)
        ensures
            r@ == "SHA256SUMS"@,
    {
        "SHA256SUMS".to_owned()
    }

    fn get_checksum_alg(&self) -> (r: HashAlg)
        ensures
            r == HashAlg::Sha256,
    {
        HashAlg::Sha256
    }

    /// The newest long term support release.
    fn find_stable_version(&self, versions: &Vec<String>) -> (r: Option<String>)
        ensures
            r.deep_view() == newest_lts(versions.deep_view()),
    {
        let ghost all = versions.deep_view();
        let mut i: usize = versions.len();
        assert(all.take(i as int) =~= all);
        while i > 0
            invariant
                i <= versions@.len(),
                all == versions.deep_view(),
                newest_lts(all) == newest_lts(all.take(i as int)),
            decreases i,
        {
            proof {
                assert(all.take(i as int).drop_last() =~= all.take(i - 1));
                assert(all.take(i as int).last() == versions@[i - 1]@);
            }
            if UbuntuImageProvider::is_lts(versions[i - 1].as_str()) {
                return Some(copy_str(versions[i - 1].as_str()));
            }
            i = i - 1;
        }
        None
    }
}

} // verus!
