use crate::models::arch::Arch;
use crate::text::{chars_of, is_word_char, split_chars, split_on, string_from_chars, word_char};
use vstd::prelude::*;

verus! {

/// A non-empty run of word characters (the pattern `\w+`).
pub open spec fn is_word_run(s: Seq<char>) -> bool {
    s.len() > 0 && forall|i: int| 0 <= i < s.len() ==> is_word_char(#[trigger] s[i])
}

/// A character of a release name: a word character or a dot.
pub open spec fn is_release_char(c: char) -> bool {
    is_word_char(c) || c == '.'
}

/// A non-empty run of release characters (the pattern `[\w\.]+`).
pub open spec fn is_release_run(s: Seq<char>) -> bool {
    s.len() > 0 && forall|i: int| 0 <= i < s.len() ==> is_release_char(#[trigger] s[i])
}

/// The release a bare distribution name stands for.
pub open spec fn stable_tag() -> Seq<char> {
    "stable"@
}

/// The reason given for a text that is not an image name.
pub open spec fn image_name_rejection() -> Seq<char> {
    "Image name must have the format: distro[:name][:arch] (e.g. debian, debian:bookworm, debian:stable:amd64)"@
}

/// What `distro[:name][:arch]` reads as (the pattern
/// `^(\w+)(:([\w\.]+))?(:(amd64|arm64))?$`): the distribution, the release
/// name (`stable` when absent) and the architecture (`host` when absent).
pub open spec fn image_name_parse(text: Seq<char>, host: Arch) -> Option<(Seq<char>, Seq<char>, Arch)> {
    let parts = split_on(text, ':');
    if parts.len() == 1 && is_word_run(parts[0]) {
        Some((parts[0], stable_tag(), host))
    } else if parts.len() == 2 && is_word_run(parts[0]) && is_release_run(parts[1]) {
        Some((parts[0], parts[1], host))
    } else if parts.len() == 3 && is_word_run(parts[0]) && is_release_run(parts[1])
        && Arch::from_name_spec(parts[2]) is Some {
        Some((parts[0], parts[1], Arch::from_name_spec(parts[2])->Some_0))
    } else {
        None
    }
}

/// The written form `distro:name:arch`.
pub open spec fn image_name_text(v: (Seq<char>, Seq<char>, Arch)) -> Seq<char> {
    v.0 + seq![':'] + v.1 + seq![':'] + v.2.name_spec()
}

fn is_word_run_exec(v: &[char]) -> (r: bool)
    ensures
        r == is_word_run(v@),
{
    if v.len() == 0 {
        return false;
    }
    let mut i: usize = 0;
    while i < v.len()
        invariant
            i <= v@.len(),
            forall|j: int| 0 <= j < i ==> is_word_char(#[trigger] v@[j]),
        decreases v@.len() - i,
    {
        if !word_char(v[i]) {
            assert(!is_word_char(v@[i as int]));
            return false;
        }
        i = i + 1;
    }
    true
}

fn is_release_run_exec(v: &[char]) -> (r: bool)
    ensures
        r == is_release_run(v@),
{
    if v.len() == 0 {
        return false;
    }
    let mut i: usize = 0;
    while i < v.len()
        invariant
            i <= v@.len(),
            forall|j: int| 0 <= j < i ==> is_release_char(#[trigger] v@[j]),
        decreases v@.len() - i,
    {
        let c = v[i];
        if !(word_char(c) || c == '.') {
            assert(!is_release_char(v@[i as int]));
            return false;
        }
        i = i + 1;
    }
    true
}

/// An image reference as written on the command line: `distro[:name][:arch]`.
#[derive(Debug)]
pub struct ImageName {
    distro: String,
    name: String,
    arch: Arch,
}

impl View for ImageName {
    type V = (Seq<char>, Seq<char>, Arch);

    closed spec fn view(&self) -> (Seq<char>, Seq<char>, Arch) {
        (self.distro@, self.name@, self.arch)
    }
}

impl Clone for ImageName {
    fn clone(&self) -> (r: Self)
        ensures
            r@ == self@,
    {
        ImageName {
            distro: crate::text::copy_str(self.distro.as_str()),
            name: crate::text::copy_str(self.name.as_str()),
            arch: self.arch,
        }
    }
}

impl ImageName {
    /// Reads `distro[:name][:arch]`. A bare distribution stands for its
    /// stable release, and a missing architecture is the host's, `host`.
    pub fn parse(name: &str, host: Arch) -> (r: Result<ImageName, String>)
        ensures
            r is Ok <==> image_name_parse(name@, host) is Some,
            r matches Ok(n) ==> image_name_parse(name@, host) == Some(n@),
            r matches Err(e) ==> e@ == image_name_rejection(),
    {
        let v = chars_of(name);
        let parts = split_chars(v.as_slice(), ':');
        proof {
            crate::text::lemma_split_on_nonempty(name@, ':');
            assert(parts.deep_view().len() == parts@.len());
            assert forall|i: int| 0 <= i < parts@.len() implies parts.deep_view()[i] =~= parts@[i]@ by {}
        }
        let count = parts.len();
        let ok_distro = is_word_run_exec(parts[0].as_slice());
        if count == 1 && ok_distro {
            let distro = string_from_chars(parts[0].as_slice());
            return Ok(ImageName { distro, name: "stable".to_owned(), arch: host });
        }
        if count == 2 && ok_distro && is_release_run_exec(parts[1].as_slice()) {
            let distro = string_from_chars(parts[0].as_slice());
            let release = string_from_chars(parts[1].as_slice());
            return Ok(ImageName { distro, name: release, arch: host });
        }
        if count == 3 && ok_distro && is_release_run_exec(parts[1].as_slice()) {
            let arch_text = string_from_chars(parts[2].as_slice());
            if let Some(arch) = Arch::from_name(arch_text.as_str()) {
                let distro = string_from_chars(parts[0].as_slice());
                let release = string_from_chars(parts[1].as_slice());
                return Ok(ImageName { distro, name: release, arch });
            }
        }
        Err(
            "Image name must have the format: distro[:name][:arch] (e.g. debian, debian:bookworm, debian:stable:amd64)".to_owned(),
        )
    }

    /// The distribution.
    pub fn get_distro(&self) -> (r: &str)
        ensures
            r@ == self@.0,
    {
        self.distro.as_str()
    }

    /// The release name, a version, codename or tag.
    pub fn get_name(&self) -> (r: &str)
        ensures
            r@ == self@.1,
    {
        self.name.as_str()
    }

    /// The architecture.
    pub fn get_arch(&self) -> (r: Arch)
        ensures
            r == self@.2,
    {
        self.arch
    }

    /// The reference written in full, `distro:name:arch`.
    pub fn to_string(&self) -> (r: String)
        ensures
            r@ == image_name_text(self@),
    {
        let mut r = self.distro.as_str().to_owned();
        crate::text::push_char(&mut r, ':');
        crate::text::push_str(&mut r, self.name.as_str());
        crate::text::push_char(&mut r, ':');
        let arch = self.arch.to_string();
        crate::text::push_str(&mut r, arch.as_str());
        r
    }
}

} // verus!

verus! {

/// Law: the full written form `distro:name:arch` of a valid reference reads
/// back as exactly that reference, whatever the host.
pub proof fn law_image_name_round_trip(distro: Seq<char>, name: Seq<char>, arch: Arch, host: Arch)
    requires
        is_word_run(distro),
        is_release_run(name),
    ensures
        image_name_parse(image_name_text((distro, name, arch)), host) == Some((distro, name, arch)),
{
    assert(!distro.contains(':')) by {
        if distro.contains(':') {
            let k = choose|k: int| 0 <= k < distro.len() && distro[k] == ':';
            assert(is_word_char(distro[k]));
        }
    }
    assert(!name.contains(':')) by {
        if name.contains(':') {
            let k = choose|k: int| 0 <= k < name.len() && name[k] == ':';
            assert(is_release_char(name[k]));
        }
    }
    let a = arch.name_spec();
    assert(!a.contains(':')) by {
        if a.contains(':') {
            let k = choose|k: int| 0 <= k < a.len() && a[k] == ':';
        }
    }
    let parts = seq![distro, name, a];
    assert(parts.drop_last() =~= seq![distro, name]);
    assert(seq![distro, name].drop_last() =~= seq![distro]);
    assert(crate::text::join(seq![distro], seq![':']) == distro);
    assert(crate::text::join(seq![distro, name], seq![':']) == distro + seq![':'] + name);
    assert(crate::text::join(parts, seq![':']) == distro + seq![':'] + name + seq![':'] + a);
    assert(crate::text::join(parts, seq![':']) =~= image_name_text((distro, name, arch)));
    crate::text::lemma_split_join(parts, ':');
    assert(Arch::AMD64.name_spec()[1] != Arch::ARM64.name_spec()[1]);
    assert(Arch::from_name_spec(a) == Some(arch));
}

} // verus!

verus! {

/// `:` followed by `x`, or nothing when `x` is empty (an optional group of
/// the pattern).
pub open spec fn colon_group(x: Seq<char>) -> Seq<char> {
    if x.len() == 0 {
        Seq::empty()
    } else {
        seq![':'] + x
    }
}

/// Whether `s` matches the pattern `^\w+(:[\w.]+)?(:(amd64|arm64))?$`.
pub open spec fn image_name_pattern(s: Seq<char>) -> bool {
    exists|distro: Seq<char>, name: Seq<char>, arch: Seq<char>|
        #![trigger is_word_run(distro), colon_group(name), colon_group(arch)]
        is_word_run(distro) && (name.len() == 0 || is_release_run(name)) && (arch.len() == 0
            || arch == "amd64"@ || arch == "arm64"@) && s == distro + colon_group(name) + colon_group(arch)
}

proof fn lemma_no_colon_in_word_run(s: Seq<char>)
    requires
        is_word_run(s),
    ensures
        !s.contains(':'),
{
    if s.contains(':') {
        let k = choose|k: int| 0 <= k < s.len() && s[k] == ':';
        assert(is_word_char(s[k]));
    }
}

proof fn lemma_no_colon_in_release_run(s: Seq<char>)
    requires
        is_release_run(s),
    ensures
        !s.contains(':'),
{
    if s.contains(':') {
        let k = choose|k: int| 0 <= k < s.len() && s[k] == ':';
        assert(is_release_char(s[k]));
    }
}

/// Law: a text reads as an image name exactly when it matches the pattern
/// `^\w+(:[\w.]+)?(:(amd64|arm64))?$`, whatever the host.
#[verifier::spinoff_prover]
#[verifier::rlimit(40)]
pub proof fn law_image_name_pattern(s: Seq<char>, host: Arch)
    ensures
        image_name_parse(s, host) is Some <==> image_name_pattern(s),
{
    reveal_strlit("amd64");
    reveal_strlit("arm64");
    assert(Arch::AMD64.name_spec() =~= "amd64"@);
    assert(Arch::ARM64.name_spec() =~= "arm64"@);
    assert(is_release_run("amd64"@)) by {
        assert forall|i: int| 0 <= i < "amd64"@.len() implies is_release_char(#[trigger] "amd64"@[i]) by {}
    }
    assert(is_release_run("arm64"@)) by {
        assert forall|i: int| 0 <= i < "arm64"@.len() implies is_release_char(#[trigger] "arm64"@[i]) by {}
    }
    assert(!"amd64"@.contains(':')) by {
        if "amd64"@.contains(':') {
            let k = choose|k: int| 0 <= k < 5 && "amd64"@[k] == ':';
        }
    }
    assert(!"arm64"@.contains(':')) by {
        if "arm64"@.contains(':') {
            let k = choose|k: int| 0 <= k < 5 && "arm64"@[k] == ':';
        }
    }
    let parts = split_on(s, ':');
    if image_name_parse(s, host) is Some {
        crate::text::lemma_join_split(s, ':');
        let e = Seq::<char>::empty();
        if parts.len() == 1 {
            assert(s == parts[0]);
            assert(s == parts[0] + colon_group(e) + colon_group(e));
            assert(is_word_run(parts[0]));
        } else if parts.len() == 2 {
            assert(parts.drop_last() =~= seq![parts[0]]);
            assert(crate::text::join(seq![parts[0]], seq![':']) == parts[0]);
            assert(crate::text::join(parts, seq![':']) == crate::text::join(parts.drop_last(), seq![':'])
                + seq![':'] + parts.last());
            assert(s == parts[0] + seq![':'] + parts[1]);
            assert(s =~= parts[0] + colon_group(parts[1]) + colon_group(e));
            assert(is_word_run(parts[0]));
        } else {
            assert(parts.len() == 3);
            assert(parts.drop_last() =~= seq![parts[0], parts[1]]);
            assert(seq![parts[0], parts[1]].drop_last() =~= seq![parts[0]]);
            assert(crate::text::join(seq![parts[0]], seq![':']) == parts[0]);
            assert(crate::text::join(seq![parts[0], parts[1]], seq![':']) == parts[0] + seq![':'] + parts[1]);
            assert(crate::text::join(parts, seq![':']) == crate::text::join(parts.drop_last(), seq![':'])
                + seq![':'] + parts.last());
            assert(s == parts[0] + seq![':'] + parts[1] + seq![':'] + parts[2]);
            assert(s =~= parts[0] + colon_group(parts[1]) + colon_group(parts[2]));
            assert(is_word_run(parts[0]));
        }
    }
    if image_name_pattern(s) {
        let (d, n, a) = choose|distro: Seq<char>, name: Seq<char>, arch: Seq<char>|
            #![trigger is_word_run(distro), colon_group(name), colon_group(arch)]
            is_word_run(distro) && (name.len() == 0 || is_release_run(name)) && (arch.len() == 0
                || arch == "amd64"@ || arch == "arm64"@) && s == distro + colon_group(name) + colon_group(arch);
        lemma_no_colon_in_word_run(d);
        if n.len() > 0 {
            lemma_no_colon_in_release_run(n);
        }
        if n.len() == 0 && a.len() == 0 {
            let ps = seq![d];
            assert(crate::text::join(ps, seq![':']) == d);
            assert(s =~= d);
            crate::text::lemma_split_join(ps, ':');
        } else if a.len() == 0 || n.len() == 0 {
            let x = if n.len() > 0 { n } else { a };
            assert(is_release_run(x));
            lemma_no_colon_in_release_run(x);
            let ps = seq![d, x];
            assert(ps.drop_last() =~= seq![d]);
            assert(crate::text::join(seq![d], seq![':']) == d);
            assert(s =~= crate::text::join(ps, seq![':']));
            crate::text::lemma_split_join(ps, ':');
        } else {
            let ps = seq![d, n, a];
            assert(ps.drop_last() =~= seq![d, n]);
            assert(seq![d, n].drop_last() =~= seq![d]);
            assert(crate::text::join(seq![d], seq![':']) == d);
            assert(crate::text::join(seq![d, n], seq![':']) == d + seq![':'] + n);
            assert(s =~= crate::text::join(ps, seq![':']));
            crate::text::lemma_split_join(ps, ':');
            assert(Arch::from_name_spec(a) is Some);
        }
    }
}

} // verus!

verus! {

/// Law: a name written without an architecture is for the host, whatever
/// the host is, and a bare distribution stands for its `stable` release.
pub proof fn law_missing_arch_is_the_host(distro: Seq<char>, name: Seq<char>, host: Arch)
    requires
        is_word_run(distro),
        name.len() == 0 || is_release_run(name),
    ensures
        image_name_parse(distro + colon_group(name), host) == Some((
            distro,
            if name.len() == 0 { "stable"@ } else { name },
            host,
        )),
{
    lemma_no_colon_in_word_run(distro);
    if name.len() == 0 {
        let ps = seq![distro];
        assert(crate::text::join(ps, seq![':']) == distro);
        assert(distro + colon_group(name) =~= distro);
        crate::text::lemma_split_join(ps, ':');
    } else {
        lemma_no_colon_in_release_run(name);
        let ps = seq![distro, name];
        assert(ps.drop_last() =~= seq![distro]);
        assert(crate::text::join(seq![distro], seq![':']) == distro);
        assert(distro + colon_group(name) =~= crate::text::join(ps, seq![':']));
        crate::text::lemma_split_join(ps, ':');
    }
}

} // verus!
