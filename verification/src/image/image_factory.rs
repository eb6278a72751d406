use crate::image::image_provider::{newest, newest_version, ImageProvider};
use crate::image::ubuntu_image_provider::{newest_lts, UbuntuImageProvider};
use crate::models::image::{image_has_name, Image, ImageModel};
use crate::models::image_order::{image_after, image_gt, lemma_after_not_before};
use crate::models::{Arch, Environment, ImageName};
use crate::text::{copy_str, str_eq};
use vstd::prelude::*;

verus! {

/// The views of a list of images.
pub open spec fn image_models(v: Seq<Image>) -> Seq<ImageModel> {
    Seq::new(v.len(), |i: int| v[i]@)
}

/// No image comes after its right neighbour.
pub open spec fn neighbours_in_order(s: Seq<ImageModel>) -> bool {
    forall|j: int, k: int| 0 <= j && k == j + 1 && k < s.len() ==> !image_after(#[trigger] s[j], #[trigger] s[k])
}

/// `p` maps the positions `0..n` one to one into `0..m`.
pub open spec fn injective_into(p: Seq<int>, m: int) -> bool {
    &&& forall|a: int| 0 <= a < p.len() ==> 0 <= #[trigger] p[a] < m
    &&& forall|a: int, b: int| 0 <= a < b < p.len() ==> #[trigger] p[a] != #[trigger] p[b]
}

/// Neither image comes after the other: they compare equal.
pub open spec fn ties(a: ImageModel, b: ImageModel) -> bool {
    !image_after(a, b) && !image_after(b, a)
}

/// `r` holds the images of `v`, each once, in an order where images that
/// compare equal keep the order they have in `v`.
pub open spec fn is_stable_permutation(r: Seq<ImageModel>, v: Seq<ImageModel>) -> bool {
    &&& r.len() == v.len()
    &&& exists|p: Seq<int>| #[trigger] injective_into(p, v.len() as int) && p.len() == r.len()
        && (forall|j: int| 0 <= j < r.len() ==> r[j] == v[#[trigger] p[j]])
        && (forall|a: int, b: int|
            0 <= a < b < r.len() && ties(r[a], r[b]) ==> #[trigger] p[a] < #[trigger] p[b])
}

/// The images of one distribution and architecture.
pub open spec fn in_group(m: ImageModel, distro: Seq<char>, arch: Arch) -> bool {
    m.distro == distro && m.arch == arch
}

/// The versions of the images of one distribution and architecture, in the
/// order of the list.
pub open spec fn group_versions(s: Seq<ImageModel>, distro: Seq<char>, arch: Arch) -> Seq<Seq<char>>
    decreases s.len(),
{
    if s.len() == 0 {
        Seq::empty()
    } else {
        let rest = group_versions(s.drop_last(), distro, arch);
        if in_group(s.last(), distro, arch) {
            rest.push(s.last().version)
        } else {
            rest
        }
    }
}

/// The distributions that images are published for.
pub open spec fn provider_distros() -> Seq<Seq<char>> {
    seq!["almalinux"@, "archlinux"@, "debian"@, "fedora"@, "gentoo"@, "opensuse"@, "rockylinux"@, "ubuntu"@]
}

/// The stable release of a distribution among its versions, oldest first:
/// Ubuntu's newest long term support release, else the newest.
pub open spec fn stable_version_of(distro: Seq<char>, versions: Seq<Seq<char>>) -> Option<Seq<char>> {
    if distro == "ubuntu"@ {
        newest_lts(versions)
    } else {
        newest_version(versions)
    }
}

/// The tags an image of the sorted list `s` takes: `stable` when it is the
/// stable release of its distribution and architecture, then `latest` when
/// it is the newest. Images of other distributions take none.
pub open spec fn derived_tags(s: Seq<ImageModel>, m: ImageModel) -> Seq<Seq<char>> {
    if provider_distros().contains(m.distro) {
        let versions = group_versions(s, m.distro, m.arch);
        let stable = if stable_version_of(m.distro, versions) == Some(m.version) {
            seq!["stable"@]
        } else {
            Seq::empty()
        };
        let latest = if newest_version(versions) == Some(m.version) {
            seq!["latest"@]
        } else {
            Seq::empty()
        };
        stable + latest
    } else {
        Seq::empty()
    }
}

/// The sorted list `s` with the derived tags appended to each image.
pub open spec fn tagged(s: Seq<ImageModel>) -> Seq<ImageModel> {
    Seq::new(s.len(), |i: int| ImageModel { tags: s[i].tags + derived_tags(s, s[i]), ..s[i] })
}

/// Whether an image matches a parsed image name: same distribution and
/// architecture, and it goes by the name.
pub open spec fn matches_name(m: ImageModel, name: (Seq<char>, Seq<char>, Arch)) -> bool {
    m.distro == name.0 && m.arch == name.2 && image_has_name(m, name.1)
}

/// Whether `m` is the image that `provider` publishes as `image_file` in
/// the release directory `dir_url` of release `name` for `arch`, with the
/// download size `size`: the distribution, version, codename, checksum file
/// and checksum algorithm are the provider's answers, and it has no tags.
pub open spec fn describes<P: ImageProvider>(
    provider: &P,
    name: &str,
    arch: Arch,
    dir_url: Seq<char>,
    image_file: &str,
    size: u64,
    m: ImageModel,
) -> bool {
    &&& m.arch == arch
    &&& m.tags == Seq::<Seq<char>>::empty()
    &&& m.image_url == dir_url + image_file@
    &&& m.size == Some(size)
    &&& exists|distro: &str| call_ensures(P::get_distro, (provider,), distro) && m.distro == distro@
    &&& exists|version: String|
        call_ensures(P::get_version, (provider, image_file, name), version) && m.version == version@
    &&& exists|codename: Option<String>|
        call_ensures(P::get_codename, (provider, name), codename) && m.codename == codename.deep_view()
    &&& exists|checksum: String|
        call_ensures(P::get_checksum_file, (provider, image_file, name, arch), checksum)
            && m.checksum_url == dir_url + checksum@
    &&& call_ensures(P::get_checksum_alg, (provider,), m.hash_alg)
}

/// The first file that a directory listing links to under the pattern.
pub open spec fn first_listed_file(listing: Seq<char>, file_pattern: Seq<char>) -> Option<Seq<char>> {
    let found = crate::util::find::captured_texts(crate::util::find::regex_group_matches(
        "href=\"\\.?/?("@ + file_pattern + ")\""@,
        listing,
    ));
    if found.len() > 0 {
        Some(found[0])
    } else {
        None
    }
}

/// The lookups for a provider's releases: each release name, in order, with
/// each architecture, in order.
pub open spec fn release_lookups(names: Seq<Seq<char>>, arches: Seq<Arch>) -> Seq<(Seq<char>, Arch)>
    decreases names.len(),
{
    if names.len() == 0 {
        Seq::empty()
    } else {
        release_lookups(names.drop_last(), arches) + arches.map_values(|a: Arch| (names.last(), a))
    }
}

/// The view of a list of lookups.
pub open spec fn lookups_view(v: Seq<(String, Arch)>) -> Seq<(Seq<char>, Arch)> {
    v.map_values(|l: (String, Arch)| (l.0@, l.1))
}

/// Lists the images of the distributions and finds one by name.
pub struct ImageFactory {
    env: Environment,
}

/// Two environments with the same user and directories.
pub open spec fn same_environment(a: Environment, b: Environment) -> bool {
    a.user_view() == b.user_view() && a.data_dir_view() == b.data_dir_view()
        && a.cache_dir_view() == b.cache_dir_view()
}

impl ImageFactory {
    /// The environment of the factory.
    pub closed spec fn environment(&self) -> Environment {
        self.env
    }

    /// A factory that keeps its cache in the directories of `env`.
    pub fn new(env: &Environment) -> (r: ImageFactory)
        ensures
            same_environment(r.environment(), *env),
    {
        ImageFactory { env: env.clone() }
    }

    /// The environment the factory reads its cache paths from.
    pub fn get_env(&self) -> (r: &Environment)
        ensures
            *r == self.environment(),
    {
        &self.env
    }

    /// The architectures to look at: both, or only the filter's.
    pub fn filter_arch(filter: Option<ImageName>) -> (r: Vec<Arch>)
        ensures
            r@ == match filter {
                None => seq![Arch::AMD64, Arch::ARM64],
                Some(f) => seq![f@.2],
            },
    {
        let mut arches: Vec<Arch> = Vec::new();
        match filter {
            None => {
                arches.push(Arch::AMD64);
                arches.push(Arch::ARM64);
            },
            Some(f) => {
                arches.push(f.get_arch());
            },
        }
        arches
    }

    /// Sorts the images by distribution, then version, keeping images that
    /// compare equal in their order.
    pub fn sort_images(images: &Vec<Image>) -> (r: Vec<Image>)
        ensures
            neighbours_in_order(image_models(r@)),
            is_stable_permutation(image_models(r@), image_models(images@)),
    {
        let ghost input = image_models(images@);
        let mut out: Vec<Image> = Vec::new();
        let ghost mut p: Seq<int> = Seq::empty();
        let mut i: usize = 0;
        while i < images.len()
            invariant
                i <= images@.len(),
                input == image_models(images@),
                out@.len() == i,
                p.len() == i,
                injective_into(p, i as int),
                forall|j: int| 0 <= j < out@.len() ==> out@[j]@ == input[#[trigger] p[j]],
                forall|a: int, b: int|
                    0 <= a < b < out@.len() && ties(out@[a]@, out@[b]@) ==> #[trigger] p[a] < #[trigger] p[b],
                neighbours_in_order(image_models(out@)),
            decreases images@.len() - i,
        {
            let x = images[i].clone();
            let mut pos: usize = out.len();
            while pos > 0 && image_gt(&out[pos - 1], &x)
                invariant
                    pos <= out@.len(),
                    forall|k: int| pos <= k < out@.len() ==> image_after(#[trigger] out@[k]@, x@),
                decreases pos,
            {
                pos = pos - 1;
            }
            let ghost before = image_models(out@);
            let ghost xm = x@;
            out.insert(pos, x);
            proof {
                let after = image_models(out@);
                assert(after =~= before.insert(pos as int, xm));
                assert forall|j: int, k: int| 0 <= j && k == j + 1 && k < after.len() implies !image_after(
                    #[trigger] after[j],
                    #[trigger] after[k],
                ) by {
                    if k < pos {
                        assert(after[j] == before[j] && after[k] == before[k]);
                    } else if k == pos {
                        assert(after[k] == xm);
                        assert(after[j] == before[j]);
                    } else if j == pos {
                        assert(after[j] == xm);
                        assert(after[k] == before[j]);
                        lemma_after_not_before(before[j], xm);
                    } else {
                        assert(after[j] == before[j - 1] && after[k] == before[k - 1]);
                    }
                }
                let q = p.insert(pos as int, i as int);
                assert forall|j: int| 0 <= j < out@.len() implies out@[j]@ == input[#[trigger] q[j]] by {
                    if j < pos {
                        assert(q[j] == p[j]);
                    } else if j > pos {
                        assert(q[j] == p[j - 1]);
                    }
                }
                assert(injective_into(q, i + 1));
                assert forall|a: int, b: int|
                    0 <= a < b < out@.len() && ties(out@[a]@, out@[b]@) implies #[trigger] q[a] < #[trigger] q[b] by {
                    if b < pos {
                        assert(q[a] == p[a] && q[b] == p[b]);
                        assert(out@[a]@ == before[a] && out@[b]@ == before[b]);
                    } else if b == pos {
                        assert(q[b] == i);
                        assert(q[a] == p[a]);
                        assert(0 <= p[a] < i);
                    } else if a == pos {
                        assert(out@[b]@ == before[b - 1]);
                        assert(out@[a]@ == xm);
                        assert(image_after(before[b - 1], xm));
                    } else if a < pos {
                        assert(q[a] == p[a] && q[b] == p[b - 1]);
                        assert(out@[a]@ == before[a] && out@[b]@ == before[b - 1]);
                    } else {
                        assert(q[a] == p[a - 1] && q[b] == p[b - 1]);
                        assert(out@[a]@ == before[a - 1] && out@[b]@ == before[b - 1]);
                    }
                }
                p = q;
            }
            i = i + 1;
        }
        proof {
            assert(image_models(out@).len() == input.len());
            assert(injective_into(p, input.len() as int));
            assert forall|j: int| 0 <= j < image_models(out@).len() implies image_models(out@)[j]
                == input[#[trigger] p[j]] by {}
        }
        out
    }

    /// The versions of one distribution and architecture, in list order.
    pub fn group_versions(images: &Vec<Image>, distro: &str, arch: Arch) -> (r: Vec<String>)
        ensures
            r.deep_view() == group_versions(image_models(images@), distro@, arch),
    {
        let ghost all = image_models(images@);
        let mut r: Vec<String> = Vec::new();
        let mut i: usize = 0;
        while i < images.len()
            invariant
                i <= images@.len(),
                all == image_models(images@),
                r.deep_view() == group_versions(all.take(i as int), distro@, arch),
            decreases images@.len() - i,
        {
            proof {
                assert(all.take(i + 1).drop_last() =~= all.take(i as int));
                assert(all.take(i + 1).last() == images@[i as int]@);
            }
            if str_eq(images[i].distro.as_str(), distro) && images[i].arch == arch {
                let ghost before = r.deep_view();
                r.push(copy_str(images[i].get_version()));
                assert(r.deep_view() =~= before.push(images@[i as int]@.version));
            }
            i = i + 1;
        }
        assert(all.take(images@.len() as int) =~= all);
        r
    }

    /// Whether images of the distribution are published.
    pub fn is_provider_distro(distro: &str) -> (r: bool)
        ensures
            r == provider_distros().contains(distro@),
    {
        let found = str_eq(distro, "almalinux") || str_eq(distro, "archlinux") || str_eq(distro, "debian")
            || str_eq(distro, "fedora") || str_eq(distro, "gentoo") || str_eq(distro, "opensuse")
            || str_eq(distro, "rockylinux") || str_eq(distro, "ubuntu");
        proof {
            let ds = provider_distros();
            if found {
                if distro@ == "almalinux"@ { assert(ds[0] == distro@); }
                else if distro@ == "archlinux"@ { assert(ds[1] == distro@); }
                else if distro@ == "debian"@ { assert(ds[2] == distro@); }
                else if distro@ == "fedora"@ { assert(ds[3] == distro@); }
                else if distro@ == "gentoo"@ { assert(ds[4] == distro@); }
                else if distro@ == "opensuse"@ { assert(ds[5] == distro@); }
                else if distro@ == "rockylinux"@ { assert(ds[6] == distro@); }
                else { assert(ds[7] == distro@); }
            } else {
                assert forall|k: int| 0 <= k < ds.len() implies ds[k] != distro@ by {}
            }
        }
        found
    }

    /// The stable release of a distribution among its versions, oldest first.
    pub fn stable_version(distro: &str, versions: &Vec<String>) -> (r: Option<String>)
        ensures
            r.deep_view() == stable_version_of(distro@, versions.deep_view()),
    {
        if str_eq(distro, "ubuntu") {
            let provider = UbuntuImageProvider {};
            provider.find_stable_version(versions)
        } else {
            newest(versions)
        }
    }

    /// The tags derived for the image at `k` of the sorted list.
    pub fn derive_tags(images: &Vec<Image>, k: usize) -> (r: Vec<String>)
        requires
            k < images@.len(),
        ensures
            r.deep_view() == derived_tags(image_models(images@), images@[k as int]@),
    {
        let image = &images[k];
        let mut tags: Vec<String> = Vec::new();
        if !ImageFactory::is_provider_distro(image.distro.as_str()) {
            assert(tags.deep_view() =~= Seq::<Seq<char>>::empty());
            return tags;
        }
        let versions = ImageFactory::group_versions(images, image.distro.as_str(), image.arch);
        let stable = ImageFactory::stable_version(image.distro.as_str(), &versions);
        let latest = newest(&versions);
        let ghost version = image@.version;
        let is_stable = match &stable {
            Some(v) => str_eq(v.as_str(), image.get_version()),
            None => false,
        };
        let is_latest = match &latest {
            Some(v) => str_eq(v.as_str(), image.get_version()),
            None => false,
        };
        if is_stable {
            tags.push(Image::STABLE_TAG.to_owned());
        }
        if is_latest {
            tags.push(Image::LATEST_TAG.to_owned());
        }
        proof {
            let s = image_models(images@);
            let vs = group_versions(s, image@.distro, image@.arch);
            let st: Seq<Seq<char>> = if stable_version_of(image@.distro, vs) == Some(version) {
                seq!["stable"@]
            } else {
                Seq::empty()
            };
            let lt: Seq<Seq<char>> = if newest_version(vs) == Some(version) {
                seq!["latest"@]
            } else {
                Seq::empty()
            };
            assert(tags.deep_view() =~= st + lt);
        }
        tags
    }

    /// Derive the stable and latest tag of every distro and arch. Tags follow
    /// from the version list, so they are never stored and never go stale.
    pub fn tag_images(images: Vec<Image>) -> (r: Vec<Image>)
        ensures
            exists|sorted: Seq<ImageModel>|
                #[trigger] neighbours_in_order(sorted) && is_stable_permutation(sorted, image_models(images@))
                    && image_models(r@) == tagged(sorted),
    {
        let sorted = ImageFactory::sort_images(&images);
        let ghost s = image_models(sorted@);
        let mut out: Vec<Image> = Vec::new();
        let mut k: usize = 0;
        while k < sorted.len()
            invariant
                k <= sorted@.len(),
                s == image_models(sorted@),
                image_models(out@) =~= tagged(s).take(k as int),
            decreases sorted@.len() - k,
        {
            let extra = ImageFactory::derive_tags(&sorted, k);
            let mut image = sorted[k].clone();
            let ghost before_tags = image.tags.deep_view();
            let mut t: usize = 0;
            while t < extra.len()
                invariant
                    t <= extra@.len(),
                    image.tags.deep_view() == before_tags + extra.deep_view().take(t as int),
                    image@.distro == sorted@[k as int]@.distro,
                    image@.version == sorted@[k as int]@.version,
                    image@.codename == sorted@[k as int]@.codename,
                    image@.arch == sorted@[k as int]@.arch,
                    image@.image_url == sorted@[k as int]@.image_url,
                    image@.checksum_url == sorted@[k as int]@.checksum_url,
                    image@.hash_alg == sorted@[k as int]@.hash_alg,
                    image@.size == sorted@[k as int]@.size,
                decreases extra@.len() - t,
            {
                let ghost b = image.tags.deep_view();
                image.tags.push(copy_str(extra[t].as_str()));
                assert(image.tags.deep_view() =~= b.push(extra@[t as int]@));
                assert(extra.deep_view().take(t + 1) =~= extra.deep_view().take(t as int).push(
                    extra.deep_view()[t as int],
                ));
                t = t + 1;
            }
            assert(extra.deep_view().take(extra@.len() as int) =~= extra.deep_view());
            let ghost before = image_models(out@);
            out.push(image);
            proof {
                assert(image_models(out@) =~= before.push(image_models(out@)[k as int]));
                assert(image_models(out@)[k as int] == tagged(s)[k as int]);
                assert(tagged(s).take(k + 1) =~= tagged(s).take(k as int).push(tagged(s)[k as int]));
            }
            k = k + 1;
        }
        assert(tagged(s).take(sorted@.len() as int) =~= tagged(s));
        out
    }

    /// The first image that matches the name: same distribution and
    /// architecture, and it goes by the name.
    pub fn find_matching_image(images: &[Image], filter: &ImageName) -> (r: Option<Image>)
        ensures
            r is None <==> forall|k: int| 0 <= k < images@.len() ==> !matches_name(#[trigger] images@[k]@, filter@),
            r matches Some(x) ==> exists|k: int|
                0 <= k < images@.len() && matches_name(#[trigger] images@[k]@, filter@) && x@ == images@[k]@
                    && forall|j: int| 0 <= j < k ==> !matches_name(#[trigger] images@[j]@, filter@),
    {
        let mut i: usize = 0;
        while i < images.len()
            invariant
                i <= images@.len(),
                forall|j: int| 0 <= j < i ==> !matches_name(#[trigger] images@[j]@, filter@),
            decreases images@.len() - i,
        {
            let image = &images[i];
            if str_eq(image.distro.as_str(), filter.get_distro()) && image.arch == filter.get_arch()
                && image.has_name(filter.get_name()) {
                let found = image.clone();
                assert(matches_name(images@[i as int]@, filter@));
                return Some(found);
            }
            i = i + 1;
        }
        None
    }

    /// What is read when the list comes from the providers: what they gave,
    /// or the stale cache when they gave nothing and there is one. The flag
    /// says whether to write the fetched list to the cache, which happens
    /// for a full, unfiltered list only.
    pub fn after_fetch(fetched: Vec<Image>, cache: Option<Vec<Image>>, filtered: bool) -> (r: (
        Vec<Image>,
        bool,
    ))
        ensures
            fetched@.len() == 0 && cache is Some ==> image_models(r.0@) == image_models(cache->Some_0@)
                && !r.1,
            !(fetched@.len() == 0 && cache is Some) ==> image_models(r.0@) == image_models(fetched@)
                && r.1 == !filtered,
    {
        if fetched.len() == 0 {
            if let Some(cached) = cache {
                return (cached, false);
            }
        }
        (fetched, !filtered)
    }

    /// The images a read gives: all of them tagged, or with a filter the
    /// first tagged image that matches it.
    pub fn finish_read(images: Vec<Image>, filter: Option<ImageName>) -> (r: Vec<Image>)
        ensures
            exists|sorted: Seq<ImageModel>|
                #[trigger] neighbours_in_order(sorted) && is_stable_permutation(sorted, image_models(images@))
                    && match filter {
                    None => image_models(r@) == tagged(sorted),
                    Some(name) => {
                        &&& r@.len() <= 1
                        &&& r@.len() == 0 <==> forall|k: int|
                            0 <= k < sorted.len() ==> !matches_name(#[trigger] tagged(sorted)[k], name@)
                        &&& r@.len() == 1 ==> exists|k: int|
                            0 <= k < sorted.len() && matches_name(#[trigger] tagged(sorted)[k], name@)
                                && r@[0]@ == tagged(sorted)[k] && forall|j: int|
                                0 <= j < k ==> !matches_name(#[trigger] tagged(sorted)[j], name@)
                    },
                },
    {
        let ghost input = image_models(images@);
        let tagged_images = ImageFactory::tag_images(images);
        let ghost sorted = choose|sorted: Seq<ImageModel>|
            #[trigger] neighbours_in_order(sorted) && is_stable_permutation(sorted, input)
                && image_models(tagged_images@) == tagged(sorted);
        let ghost t = tagged(sorted);
        assert(t.len() == sorted.len());
        assert(image_models(tagged_images@).len() == tagged_images@.len());
        assert(t.len() == tagged_images@.len());
        assert(forall|k: int| 0 <= k < tagged_images@.len() ==> #[trigger] tagged_images@[k]@ == t[k]);
        match filter {
            None => tagged_images,
            Some(name) => {
                let found = ImageFactory::find_matching_image(tagged_images.as_slice(), &name);
                let mut r: Vec<Image> = Vec::new();
                if let Some(image) = found {
                    r.push(image);
                    assert(r@[0]@ == image@);
                }
                proof {
                    if r@.len() == 0 {
                        assert forall|k: int| 0 <= k < sorted.len() implies !matches_name(
                            #[trigger] t[k],
                            name@,
                        ) by {
                            assert(tagged_images@[k]@ == t[k]);
                        }
                    }
                }
                r
            },
        }
    }

    /// The first image of a filtered read, or the error that names the
    /// image that was not found.
    pub fn first_image(images: Vec<Image>, name: &ImageName) -> (r: Result<Image, crate::error::Error>)
        ensures
            images@.len() > 0 ==> (r matches Ok(x) && x@ == images@[0]@),
            images@.len() == 0 ==> (r matches Err(crate::error::Error::UnknownImage(n))
                && n@ == crate::models::image_name::image_name_text(name@)),
    {
        if images.len() > 0 {
            Ok(images[0].clone())
        } else {
            Err(crate::error::Error::UnknownImage(name.to_string()))
        }
    }

    /// Whether a read with the filter looks at the provider of `distro`:
    /// every provider without a filter, else the filter's distribution only.
    pub fn wants_provider(filter: &Option<ImageName>, distro: &str) -> (r: bool)
        ensures
            r == match filter {
                None => true,
                Some(f) => f@.0 == distro@,
            },
    {
        match filter {
            None => true,
            Some(f) => str_eq(f.get_distro(), distro),
        }
    }

    /// The directory listing URL of a release: the provider's base URL and
    /// the release's directory path.
    pub fn image_dir_url<P: ImageProvider>(provider: &P, name: &str, arch: Arch) -> (r: String)
        ensures
            exists|base: &str, path: String|
                call_ensures(P::get_base_url, (provider,), base) && call_ensures(
                    P::get_image_dir_path,
                    (provider, name, arch),
                    path,
                ) && r@ == base@ + path@,
    {
        let base = provider.get_base_url();
        let path = provider.get_image_dir_path(name, arch);
        let mut r = copy_str(base);
        crate::text::push_str(&mut r, path.as_str());
        r
    }

    /// The pattern of a link to an image file in a directory listing.
    pub fn image_link_pattern(file_pattern: &str) -> (r: String)
        ensures
            r@ == "href=\"\\.?/?("@ + file_pattern@ + ")\""@,
    {
        let mut r = "href=\"\\.?/?(".to_owned();
        crate::text::push_str(&mut r, file_pattern);
        crate::text::push_str(&mut r, ")\"");
        r
    }

    /// The first image file that the directory listing links to.
    pub fn find_image_file(listing: &str, file_pattern: &str) -> (r: Option<String>)
        ensures
            r.deep_view() == first_listed_file(listing@, file_pattern@),
    {
        let pattern = ImageFactory::image_link_pattern(file_pattern);
        let files = crate::util::find_and_extract(pattern.as_str(), listing);
        if files.len() > 0 {
            Some(copy_str(files[0].as_str()))
        } else {
            None
        }
    }

    /// The image a provider publishes as `image_file` in the release
    /// directory at `dir_url`, with its download size.
    pub fn describe_image<P: ImageProvider>(
        provider: &P,
        name: &str,
        arch: Arch,
        dir_url: &str,
        image_file: &str,
        size: u64,
    ) -> (r: Image)
        ensures
            describes(provider, name, arch, dir_url@, image_file, size, r@),
    {
        let distro = copy_str(provider.get_distro());
        let version = provider.get_version(image_file, name);
        let codename = provider.get_codename(name);
        let mut image_url = copy_str(dir_url);
        crate::text::push_str(&mut image_url, image_file);
        let checksum = provider.get_checksum_file(image_file, name, arch);
        let mut checksum_url = copy_str(dir_url);
        crate::text::push_str(&mut checksum_url, checksum.as_str());
        let hash_alg = provider.get_checksum_alg();
        let r = Image {
            distro,
            version,
            codename,
            tags: Vec::new(),
            arch,
            image_url,
            checksum_url,
            hash_alg,
            size: Some(size),
        };
        assert(r@.tags =~= Seq::<Seq<char>>::empty());
        r
    }

    /// The lookups that reading a provider's images makes: every release
    /// name that its listing gives, in order, with every architecture that
    /// the filter lets through (`filter_arch`), in order.
    pub fn provider_lookups(names: &Vec<String>, filter: &Option<ImageName>) -> (r: Vec<(String, Arch)>)
        ensures
            lookups_view(r@) == release_lookups(
                names.deep_view(),
                match filter {
                    None => seq![Arch::AMD64, Arch::ARM64],
                    Some(f) => seq![f@.2],
                },
            ),
    {
        let arches = ImageFactory::filter_arch(match filter {
            None => None,
            Some(f) => Some(f.clone()),
        });
        let ghost all = names.deep_view();
        let mut r: Vec<(String, Arch)> = Vec::new();
        let mut i: usize = 0;
        assert(all.take(0) =~= Seq::<Seq<char>>::empty());
        assert(lookups_view(r@) =~= release_lookups(all.take(0), arches@));
        while i < names.len()
            invariant
                i <= names@.len(),
                all == names.deep_view(),
                lookups_view(r@) == release_lookups(all.take(i as int), arches@),
            decreases names@.len() - i,
        {
            let ghost before = lookups_view(r@);
            let mut j: usize = 0;
            while j < arches.len()
                invariant
                    i < names@.len(),
                    j <= arches@.len(),
                    all == names.deep_view(),
                    lookups_view(r@) == before + arches@.take(j as int).map_values(|a: Arch| (all[i as int], a)),
                decreases arches@.len() - j,
            {
                let ghost mid = lookups_view(r@);
                r.push((copy_str(names[i].as_str()), arches[j]));
                assert(lookups_view(r@) =~= mid.push((all[i as int], arches@[j as int])));
                assert(arches@.take(j + 1).map_values(|a: Arch| (all[i as int], a)) =~= arches@.take(
                    j as int,
                ).map_values(|a: Arch| (all[i as int], a)).push((all[i as int], arches@[j as int])));
                j = j + 1;
            }
            assert(arches@.take(arches@.len() as int) =~= arches@);
            assert(all.take(i + 1).drop_last() =~= all.take(i as int));
            assert(all.take(i + 1).last() == all[i as int]);
            i = i + 1;
        }
        assert(all.take(names@.len() as int) =~= all);
        r
    }

    /// Whether a read takes the image list from the cache: only when there
    /// is a cache and it is still valid.
    pub fn uses_cache(cache: &Option<Vec<Image>>, cache_valid: bool) -> (r: bool)
        ensures
            r == (cache is Some && cache_valid),
    {
        cache.is_some() && cache_valid
    }

    /// The image file of a release: the first file that the directory
    /// listing links to, or `None` when the listing could not be fetched
    /// (`listing` is `None`) or links to no image file.
    pub fn listed_image_file(listing: Option<&str>, file_pattern: &str) -> (r: Option<String>)
        ensures
            r.deep_view() == match listing {
                None => None,
                Some(l) => first_listed_file(l@, file_pattern@),
            },
    {
        match listing {
            None => None,
            Some(l) => ImageFactory::find_image_file(l, file_pattern),
        }
    }

    /// The image of a release once its file is known: `None` when the size
    /// of the file is not known (`size` is `None`), else the image that the
    /// provider publishes as that file.
    pub fn sized_image<P: ImageProvider>(
        provider: &P,
        name: &str,
        arch: Arch,
        dir_url: &str,
        image_file: &str,
        size: Option<u64>,
    ) -> (r: Option<Image>)
        ensures
            size is None ==> r is None,
            size matches Some(n) ==> r matches Some(image) && describes(provider, name, arch, dir_url@, image_file, n, image@),
    {
        match size {
            None => None,
            Some(n) => Some(ImageFactory::describe_image(provider, name, arch, dir_url, image_file, n)),
        }
    }
}

} // verus!

verus! {

/// Versions of the same distribution are all of one kind.
pub open spec fn versions_agree(s: Seq<ImageModel>) -> bool {
    forall|i: int, j: int|
        0 <= i < s.len() && 0 <= j < s.len() ==> crate::models::image_order::kinds_agree(
            #[trigger] s[i],
            #[trigger] s[j],
        )
}

/// Law: when the versions of each distribution are all numbers or all
/// text, a list whose neighbours are in order is sorted throughout.
pub proof fn law_neighbours_in_order_sorts(s: Seq<ImageModel>)
    requires
        neighbours_in_order(s),
        versions_agree(s),
    ensures
        forall|i: int, j: int| 0 <= i < j < s.len() ==> !image_after(#[trigger] s[i], #[trigger] s[j]),
{
    assert forall|i: int, j: int| 0 <= i < j < s.len() implies !image_after(#[trigger] s[i], #[trigger] s[j]) by {
        lemma_sorted_from(s, i, j);
    }
}

proof fn lemma_sorted_from(s: Seq<ImageModel>, i: int, j: int)
    requires
        neighbours_in_order(s),
        versions_agree(s),
        0 <= i < j < s.len(),
    ensures
        !image_after(s[i], s[j]),
    decreases j - i,
{
    let k = j - 1;
    assert(!image_after(s[k], s[j]));
    if i < k {
        lemma_sorted_from(s, i, k);
        crate::models::image_order::lemma_not_after_transitive(s[i], s[k], s[j]);
    }
}

} // verus!

verus! {

/// Two lists whose images agree, place by place, in distribution,
/// architecture and version have the same version groups.
proof fn lemma_group_versions_by_fields(s: Seq<ImageModel>, t: Seq<ImageModel>, distro: Seq<char>, arch: Arch)
    requires
        s.len() == t.len(),
        forall|i: int| 0 <= i < s.len() ==> (#[trigger] s[i]).distro == t[i].distro && s[i].arch == t[i].arch
            && s[i].version == t[i].version,
    ensures
        group_versions(s, distro, arch) == group_versions(t, distro, arch),
    decreases s.len(),
{
    if s.len() > 0 {
        assert forall|i: int| 0 <= i < s.drop_last().len() implies (#[trigger] s.drop_last()[i]).distro
            == t.drop_last()[i].distro && s.drop_last()[i].arch == t.drop_last()[i].arch
            && s.drop_last()[i].version == t.drop_last()[i].version by {
            assert(s.drop_last()[i] == s[i] && t.drop_last()[i] == t[i]);
        }
        lemma_group_versions_by_fields(s.drop_last(), t.drop_last(), distro, arch);
        assert(s.last() == s[s.len() - 1] && t.last() == t[t.len() - 1]);
    }
}

/// Law: the tags of each image of a tagged list are its own tags followed
/// by the tags derived from the tagged list itself: tagging does not change
/// the version groups that the tags follow from.
pub proof fn law_tags_follow_the_tagged_list(s: Seq<ImageModel>)
    ensures
        forall|k: int|
            0 <= k < s.len() ==> (#[trigger] tagged(s)[k]).tags == s[k].tags + derived_tags(tagged(s), tagged(s)[k]),
{
    let t = tagged(s);
    assert forall|k: int| 0 <= k < s.len() implies (#[trigger] tagged(s)[k]).tags == s[k].tags + derived_tags(
        tagged(s),
        tagged(s)[k],
    ) by {
        assert forall|i: int| 0 <= i < s.len() implies (#[trigger] s[i]).distro == t[i].distro && s[i].arch
            == t[i].arch && s[i].version == t[i].version by {}
        lemma_group_versions_by_fields(s, t, s[k].distro, s[k].arch);
    }
}

} // verus!

verus! {

/// Law: an image is found under its distribution and architecture by its
/// version, by its codename and by each of its tags, so the name that the
/// image list prints (`distro:version`) finds the image.
pub proof fn law_image_found_by_its_names(m: ImageModel)
    ensures
        matches_name(m, (m.distro, m.version, m.arch)),
        m.codename matches Some(c) ==> matches_name(m, (m.distro, c, m.arch)),
        forall|i: int| 0 <= i < m.tags.len() ==> matches_name(m, (m.distro, #[trigger] m.tags[i], m.arch)),
{
    assert forall|i: int| 0 <= i < m.tags.len() implies matches_name(m, (m.distro, #[trigger] m.tags[i], m.arch)) by {
        assert(m.tags.contains(m.tags[i]));
    }
}

} // verus!

verus! {

/// The versions of a group are those of the prefix that ends at the group's
/// last image.
proof fn lemma_group_versions_after_last(s: Seq<ImageModel>, k: int, n: int)
    requires
        0 <= k < n <= s.len(),
        forall|j: int| k < j < s.len() ==> !in_group(#[trigger] s[j], s[k].distro, s[k].arch),
    ensures
        group_versions(s.take(n), s[k].distro, s[k].arch) == group_versions(s.take(k + 1), s[k].distro, s[k].arch),
    decreases n - k,
{
    if n > k + 1 {
        assert(s.take(n).drop_last() =~= s.take(n - 1));
        assert(s.take(n).last() == s[n - 1]);
        lemma_group_versions_after_last(s, k, n - 1);
    }
}

/// Law: the newest release of each distribution that images are published
/// for (AlmaLinux, Arch Linux, Debian, Fedora, Gentoo, openSUSE, Rocky
/// Linux and Ubuntu), per architecture, is tagged `latest`, and outside
/// Ubuntu it is also tagged `stable`. In a sorted list the newest release of
/// a group is the last image of its distribution and architecture.
pub proof fn law_newest_release_is_tagged(s: Seq<ImageModel>, k: int)
    requires
        0 <= k < s.len(),
        s[k].distro == "almalinux"@ || s[k].distro == "archlinux"@ || s[k].distro == "debian"@
            || s[k].distro == "fedora"@ || s[k].distro == "gentoo"@ || s[k].distro == "opensuse"@
            || s[k].distro == "rockylinux"@ || s[k].distro == "ubuntu"@,
        forall|j: int| k < j < s.len() ==> !(#[trigger] s[j].distro == s[k].distro && s[j].arch == s[k].arch),
    ensures
        tagged(s)[k].tags.contains("latest"@),
        s[k].distro != "ubuntu"@ ==> tagged(s)[k].tags.contains("stable"@),
{
    let m = s[k];
    let ds = provider_distros();
    assert(ds.contains(m.distro)) by {
        if m.distro == "almalinux"@ { assert(ds[0] == m.distro); }
        else if m.distro == "archlinux"@ { assert(ds[1] == m.distro); }
        else if m.distro == "debian"@ { assert(ds[2] == m.distro); }
        else if m.distro == "fedora"@ { assert(ds[3] == m.distro); }
        else if m.distro == "gentoo"@ { assert(ds[4] == m.distro); }
        else if m.distro == "opensuse"@ { assert(ds[5] == m.distro); }
        else if m.distro == "rockylinux"@ { assert(ds[6] == m.distro); }
        else { assert(ds[7] == m.distro); }
    }
    assert forall|j: int| k < j < s.len() implies !in_group(#[trigger] s[j], m.distro, m.arch) by {
        assert(!(s[j].distro == s[k].distro && s[j].arch == s[k].arch));
    }
    lemma_group_versions_after_last(s, k, s.len() as int);
    assert(s.take(s.len() as int) =~= s);
    assert(s.take(k + 1).drop_last() =~= s.take(k));
    assert(s.take(k + 1).last() == m);
    let versions = group_versions(s, m.distro, m.arch);
    assert(versions == group_versions(s.take(k), m.distro, m.arch).push(m.version));
    assert(newest_version(versions) == Some(m.version));
    let t = tagged(s)[k];
    let stable = if stable_version_of(m.distro, versions) == Some(m.version) {
        seq!["stable"@]
    } else {
        Seq::<Seq<char>>::empty()
    };
    assert(derived_tags(s, m) == stable + seq!["latest"@]);
    assert(t.tags == m.tags + stable + seq!["latest"@]);
    assert(t.tags[(m.tags.len() + stable.len()) as int] == "latest"@);
    if m.distro != "ubuntu"@ {
        assert(stable == seq!["stable"@]);
        assert(t.tags[m.tags.len() as int] == "stable"@);
    }
}

} // verus!
