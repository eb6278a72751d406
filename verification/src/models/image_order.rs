use crate::models::image::{Image, ImageModel};
use crate::text::{chars_of, lex_compare, lex_less, parse_u32, parse_u32_spec};
use std::cmp::Ordering;
use vstd::prelude::*;
use vstd::std_specs::cmp::PartialOrdSpecImpl;

verus! {

/// The order of character sequences that `str` comparison gives.
pub open spec fn lex_order(a: Seq<char>, b: Seq<char>) -> Ordering {
    if lex_less(a, b) {
        Ordering::Less
    } else if a == b {
        Ordering::Equal
    } else {
        Ordering::Greater
    }
}

/// The order of two numbers.
pub open spec fn number_order(a: u32, b: u32) -> Ordering {
    if a < b {
        Ordering::Less
    } else if a == b {
        Ordering::Equal
    } else {
        Ordering::Greater
    }
}

/// The order of versions: by number when both read as `u32`, else as text.
pub open spec fn version_order(a: Seq<char>, b: Seq<char>) -> Ordering {
    match (parse_u32_spec(a), parse_u32_spec(b)) {
        (Some(x), Some(y)) => number_order(x, y),
        _ => lex_order(a, b),
    }
}

/// The order of images: by distribution, then by version.
pub open spec fn image_order(a: ImageModel, b: ImageModel) -> Ordering {
    let by_distro = lex_order(a.distro, b.distro);
    if by_distro != Ordering::Equal {
        by_distro
    } else {
        version_order(a.version, b.version)
    }
}

/// The opposite order.
pub open spec fn reversed(o: Ordering) -> Ordering {
    match o {
        Ordering::Less => Ordering::Greater,
        Ordering::Equal => Ordering::Equal,
        Ordering::Greater => Ordering::Less,
    }
}

/// Compares two character sequences as `str` comparison does.
pub fn compare_chars(a: &[char], b: &[char]) -> (r: Ordering)
    ensures
        r == lex_order(a@, b@),
{
    let d = lex_compare(a, b);
    if d < 0 {
        Ordering::Less
    } else if d == 0 {
        Ordering::Equal
    } else {
        proof {
            crate::text::lemma_lex_trichotomy(a@, b@);
        }
        Ordering::Greater
    }
}

/// Compares two string slices (`str::cmp`).
pub fn compare_strs(a: &str, b: &str) -> (r: Ordering)
    ensures
        r == lex_order(a@, b@),
{
    let a = chars_of(a);
    let b = chars_of(b);
    compare_chars(a.as_slice(), b.as_slice())
}

fn compare_numbers(a: u32, b: u32) -> (r: Ordering)
    ensures
        r == number_order(a, b),
{
    if a < b {
        Ordering::Less
    } else if a == b {
        Ordering::Equal
    } else {
        Ordering::Greater
    }
}

impl Image {
    /// Orders images by distribution, then by version: numerically when both
    /// versions are numbers, else as text.
    pub fn compare(&self, other: &Image) -> (r: Ordering)
        ensures
            r == image_order(self@, other@),
    {
        match compare_strs(self.distro.as_str(), other.distro.as_str()) {
            Ordering::Less => return Ordering::Less,
            Ordering::Greater => return Ordering::Greater,
            Ordering::Equal => {},
        }
        let a = self.get_version();
        let b = other.get_version();
        match (parse_u32(a), parse_u32(b)) {
            (Some(x), Some(y)) => compare_numbers(x, y),
            _ => compare_strs(a, b),
        }
    }
}

impl PartialOrd for Image {
    fn partial_cmp(&self, other: &Image) -> (r: Option<Ordering>) {
        Some(self.compare(other))
    }
}

impl PartialOrdSpecImpl for Image {
    open spec fn obeys_partial_cmp_spec() -> bool {
        true
    }

    open spec fn partial_cmp_spec(&self, other: &Image) -> Option<Ordering> {
        Some(image_order(self@, other@))
    }
}

} // verus!

verus! {

proof fn lemma_lex_order_reversed(a: Seq<char>, b: Seq<char>)
    ensures
        lex_order(a, b) == reversed(lex_order(b, a)),
        lex_order(a, a) == Ordering::Equal,
{
    crate::text::lemma_lex_trichotomy(a, b);
    crate::text::lemma_lex_trichotomy(a, a);
}

/// Law: every image is equal to itself in the image order.
pub proof fn law_image_order_reflexive(a: ImageModel)
    ensures
        image_order(a, a) == Ordering::Equal,
{
    lemma_lex_order_reversed(a.distro, a.distro);
    lemma_lex_order_reversed(a.version, a.version);
}

/// Law: comparing the other way round gives the opposite order.
pub proof fn law_image_order_antisymmetric(a: ImageModel, b: ImageModel)
    ensures
        image_order(a, b) == reversed(image_order(b, a)),
{
    lemma_lex_order_reversed(a.distro, b.distro);
    lemma_lex_order_reversed(a.version, b.version);
}

/// Whether two images both have numeric versions or both have textual ones.
pub open spec fn same_version_kind(a: ImageModel, b: ImageModel) -> bool {
    (parse_u32_spec(a.version) is Some) == (parse_u32_spec(b.version) is Some)
}

proof fn lemma_lex_order_transitive(a: Seq<char>, b: Seq<char>, c: Seq<char>)
    requires
        lex_order(a, b) != Ordering::Greater,
        lex_order(b, c) != Ordering::Greater,
    ensures
        lex_order(a, c) != Ordering::Greater,
        lex_order(a, b) == Ordering::Less || lex_order(b, c) == Ordering::Less ==> lex_order(a, c)
            == Ordering::Less,
{
    crate::text::lemma_lex_trichotomy(a, b);
    crate::text::lemma_lex_trichotomy(b, c);
    crate::text::lemma_lex_trichotomy(a, c);
    if lex_less(a, b) && lex_less(b, c) {
        crate::text::lemma_lex_transitive(a, b, c);
    }
}

/// Law: the image order is transitive among images whose versions are of
/// one kind (all numbers or all text). Mixed kinds can form a cycle, such
/// as `9 < 10` (numbers), `10 < 1a` and `1a < 9` (text).
pub proof fn law_image_order_transitive(a: ImageModel, b: ImageModel, c: ImageModel)
    requires
        image_order(a, b) == Ordering::Less,
        image_order(b, c) == Ordering::Less,
        same_version_kind(a, b),
        same_version_kind(b, c),
    ensures
        image_order(a, c) == Ordering::Less,
{
    lemma_lex_order_reversed(a.distro, b.distro);
    lemma_lex_order_reversed(b.distro, c.distro);
    lemma_lex_order_reversed(a.distro, c.distro);
    lemma_lex_order_transitive(a.distro, b.distro, c.distro);
    if lex_order(a.distro, b.distro) == Ordering::Equal && lex_order(b.distro, c.distro) == Ordering::Equal {
        if parse_u32_spec(a.version) is None {
            lemma_lex_order_transitive(a.version, b.version, c.version);
        }
    }
}

} // verus!

verus! {

/// Whether `a` comes after `b` in the image order.
pub open spec fn image_after(a: ImageModel, b: ImageModel) -> bool {
    image_order(a, b) == Ordering::Greater
}

/// Whether `a` comes after `b` in the image order.
pub fn image_gt(a: &Image, b: &Image) -> (r: bool)
    ensures
        r == image_after(a@, b@),
{
    match a.compare(b) {
        Ordering::Greater => true,
        _ => false,
    }
}

/// When `a` comes after `b`, `b` comes before `a`, not after it.
pub proof fn lemma_after_not_before(a: ImageModel, b: ImageModel)
    requires
        image_after(a, b),
    ensures
        !image_after(b, a),
{
    law_image_order_antisymmetric(a, b);
}

} // verus!

verus! {

/// Versions of the same distribution are of one kind (numbers or text).
pub open spec fn kinds_agree(a: ImageModel, b: ImageModel) -> bool {
    a.distro == b.distro ==> same_version_kind(a, b)
}

/// "Not after" is transitive when the versions of each distribution agree
/// in kind.
pub proof fn lemma_not_after_transitive(a: ImageModel, b: ImageModel, c: ImageModel)
    requires
        !image_after(a, b),
        !image_after(b, c),
        kinds_agree(a, b),
        kinds_agree(b, c),
    ensures
        !image_after(a, c),
{
    lemma_lex_order_reversed(a.distro, b.distro);
    lemma_lex_order_reversed(b.distro, c.distro);
    lemma_lex_order_reversed(a.distro, c.distro);
    crate::text::lemma_lex_trichotomy(a.distro, b.distro);
    crate::text::lemma_lex_trichotomy(b.distro, c.distro);
    crate::text::lemma_lex_trichotomy(a.distro, c.distro);
    lemma_lex_order_transitive(a.distro, b.distro, c.distro);
    if a.distro == b.distro && b.distro == c.distro {
        if parse_u32_spec(a.version) is None {
            crate::text::lemma_lex_trichotomy(a.version, b.version);
            crate::text::lemma_lex_trichotomy(b.version, c.version);
            crate::text::lemma_lex_trichotomy(a.version, c.version);
            lemma_lex_order_transitive(a.version, b.version, c.version);
        }
    }
}

} // verus!
