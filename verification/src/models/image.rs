use crate::models::arch::Arch;
use crate::text::{copy_str, join, join_strings, push_char, push_str, str_eq};
use vstd::prelude::*;

verus! {

/// The hash algorithm of an image checksum file.
#[derive(Debug, Eq, PartialEq, Clone, Copy, Structural)]
pub enum HashAlg {
    Sha512,
    Sha256,
}

impl HashAlg {
    /// The written name of the algorithm.
    pub open spec fn name_spec(self) -> Seq<char> {
        match self {
            HashAlg::Sha512 => "sha512"@,
            HashAlg::Sha256 => "sha256"@,
        }
    }

    /// The written name (`sha512` or `sha256`).
    pub fn to_string(&self) -> (r: String)
        ensures
            r@ == self.name_spec(),
    {
        match self {
            HashAlg::Sha512 => "sha512".to_owned(),
            HashAlg::Sha256 => "sha256".to_owned(),
        }
    }
}

/// The mathematical content of an image description.
pub struct ImageModel {
    pub distro: Seq<char>,
    pub version: Seq<char>,
    pub codename: Option<Seq<char>>,
    pub tags: Seq<Seq<char>>,
    pub arch: Arch,
    pub image_url: Seq<char>,
    pub checksum_url: Seq<char>,
    pub hash_alg: HashAlg,
    pub size: Option<u64>,
}

/// A VM image that a distribution offers: one release for one architecture.
#[derive(Debug, Eq, PartialEq)]
pub struct Image {
    pub distro: String,
    pub version: String,
    pub codename: Option<String>,
    /// Derived when the image list is read, never cached
    pub tags: Vec<String>,
    pub arch: Arch,
    pub image_url: String,
    pub checksum_url: String,
    pub hash_alg: HashAlg,
    pub size: Option<u64>,
}

impl View for Image {
    type V = ImageModel;

    open spec fn view(&self) -> ImageModel {
        ImageModel {
            distro: self.distro@,
            version: self.version@,
            codename: self.codename.deep_view(),
            tags: self.tags.deep_view(),
            arch: self.arch,
            image_url: self.image_url@,
            checksum_url: self.checksum_url@,
            hash_alg: self.hash_alg,
            size: self.size,
        }
    }
}

/// A copy of a list of strings.
pub fn clone_strings(v: &Vec<String>) -> (r: Vec<String>)
    ensures
        r.deep_view() == v.deep_view(),
{
    let mut r: Vec<String> = Vec::new();
    let mut i: usize = 0;
    while i < v.len()
        invariant
            i <= v@.len(),
            r.deep_view() =~= v.deep_view().take(i as int),
        decreases v@.len() - i,
    {
        let ghost before = r.deep_view();
        r.push(copy_str(v[i].as_str()));
        assert(r.deep_view() =~= before.push(v@[i as int]@));
        assert(v.deep_view().take(i + 1) =~= v.deep_view().take(i as int).push(v.deep_view()[i as int]));
        i = i + 1;
    }
    assert(v.deep_view().take(v@.len() as int) =~= v.deep_view());
    r
}

/// A copy of an optional string.
pub fn clone_opt_string(v: &Option<String>) -> (r: Option<String>)
    ensures
        r.deep_view() == v.deep_view(),
{
    match v {
        Some(s) => Some(copy_str(s.as_str())),
        None => None,
    }
}

impl Clone for Image {
    fn clone(&self) -> (r: Self)
        ensures
            r@ == self@,
    {
        Image {
            distro: copy_str(self.distro.as_str()),
            version: copy_str(self.version.as_str()),
            codename: clone_opt_string(&self.codename),
            tags: clone_strings(&self.tags),
            arch: self.arch,
            image_url: copy_str(self.image_url.as_str()),
            checksum_url: copy_str(self.checksum_url.as_str()),
            hash_alg: self.hash_alg,
            size: self.size,
        }
    }
}

/// The codename of an image, or its version when it has none.
pub open spec fn image_name_of(m: ImageModel) -> Seq<char> {
    match m.codename {
        Some(c) => c,
        None => m.version,
    }
}

/// The other names of an image: its codename, then its derived tags.
pub open spec fn image_aliases(m: ImageModel) -> Seq<Seq<char>> {
    match m.codename {
        Some(c) => seq![c] + m.tags,
        None => m.tags,
    }
}

/// Whether an image goes by `name`: its version, its codename or a tag.
pub open spec fn image_has_name(m: ImageModel, name: Seq<char>) -> bool {
    m.version == name || m.codename == Some(name) || m.tags.contains(name)
}

/// The display name `distro:version`.
pub open spec fn image_display_name(m: ImageModel) -> Seq<char> {
    m.distro + seq![':'] + m.version
}

impl Image {
    /// Version of a rolling release
    pub const ROLLING: &'static str = "rolling";
    /// Tag of the release that a bare distribution name stands for
    pub const STABLE_TAG: &'static str = "stable";
    /// Tag of the newest release
    pub const LATEST_TAG: &'static str = "latest";

    /// The release version.
    pub fn get_version(&self) -> (r: &str)
        ensures
            r@ == self@.version,
    {
        self.version.as_str()
    }

    /// Codename of a release, or its version when it has none
    pub fn get_name(&self) -> (r: &str)
        ensures
            r@ == image_name_of(self@),
    {
        match &self.codename {
            Some(codename) => codename.as_str(),
            None => self.version.as_str(),
        }
    }

    /// Whether the image goes by `name`: its version, codename or a tag.
    pub fn has_name(&self, name: &str) -> (r: bool)
        ensures
            r == image_has_name(self@, name@),
    {
        if str_eq(self.version.as_str(), name) {
            return true;
        }
        if let Some(codename) = &self.codename {
            if str_eq(codename.as_str(), name) {
                return true;
            }
        }
        let mut i: usize = 0;
        while i < self.tags.len()
            invariant
                i <= self.tags@.len(),
                forall|j: int| 0 <= j < i ==> self@.tags[j] != name@,
            decreases self.tags@.len() - i,
        {
            if str_eq(self.tags[i].as_str(), name) {
                assert(self@.tags[i as int] == name@);
                return true;
            }
            i = i + 1;
        }
        assert(!self@.tags.contains(name@));
        false
    }

    /// Image name for display, such as debian:12 or archlinux:rolling
    pub fn get_image_name(&self) -> (r: String)
        ensures
            r@ == image_display_name(self@),
    {
        let mut r = copy_str(self.distro.as_str());
        push_char(&mut r, ':');
        push_str(&mut r, self.version.as_str());
        r
    }

    /// Other names of this image, ordered codename, stable, latest
    pub fn get_tags(&self) -> (r: String)
        ensures
            r@ == join(image_aliases(self@), ", "@),
    {
        let mut names: Vec<String> = Vec::new();
        if let Some(codename) = &self.codename {
            names.push(copy_str(codename.as_str()));
        }
        let mut i: usize = 0;
        let ghost start = names.deep_view();
        while i < self.tags.len()
            invariant
                i <= self.tags@.len(),
                names.deep_view() =~= start + self@.tags.take(i as int),
            decreases self.tags@.len() - i,
        {
            let ghost before = names.deep_view();
            names.push(copy_str(self.tags[i].as_str()));
            assert(names.deep_view() =~= before.push(self.tags@[i as int]@));
            assert(self@.tags.take(i + 1) =~= self@.tags.take(i as int).push(self@.tags[i as int]));
            i = i + 1;
        }
        assert(self@.tags.take(self@.tags.len() as int) =~= self@.tags);
        assert(names.deep_view() =~= image_aliases(self@));
        join_strings(&names, ", ")
    }

    /// The full name `distro:version:arch`.
    pub fn to_name(&self) -> (r: String)
        ensures
            r@ == image_display_name(self@) + seq![':'] + self@.arch.name_spec(),
    {
        let mut r = self.get_image_name();
        push_char(&mut r, ':');
        let arch = self.arch.to_string();
        push_str(&mut r, arch.as_str());
        r
    }

    /// The cache file name `distro_name_arch`.
    pub fn to_file_name(&self) -> (r: String)
        ensures
            r@ == self@.distro + seq!['_'] + image_name_of(self@) + seq!['_'] + self@.arch.name_spec(),
    {
        let mut r = copy_str(self.distro.as_str());
        push_char(&mut r, '_');
        push_str(&mut r, self.get_name());
        push_char(&mut r, '_');
        let arch = self.arch.to_string();
        push_str(&mut r, arch.as_str());
        r
    }
}

} // verus!
