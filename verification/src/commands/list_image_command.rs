//! `cubic images`: the table of the VM images that can be used.
use crate::models::arch::Arch;
use crate::models::image::{image_display_name, Image, ImageModel};
use vstd::prelude::*;

verus! {

/// A row of the image table: the image name, the architecture, the size in
/// bytes when it is known, and whether the image is cached (`yes` or `no`).
#[derive(Debug)]
pub struct ImageRow {
    pub name: String,
    pub arch: String,
    pub size: Option<u64>,
    pub cached: String,
}

impl View for ImageRow {
    type V = (Seq<char>, Seq<char>, Option<u64>, Seq<char>);

    open spec fn view(&self) -> (Seq<char>, Seq<char>, Option<u64>, Seq<char>) {
        (self.name@, self.arch@, self.size, self.cached@)
    }
}

/// The cell that says whether an image is cached.
pub open spec fn cached_cell(cached: bool) -> Seq<char> {
    if cached {
        "yes"@
    } else {
        "no"@
    }
}

/// The row of an image.
pub open spec fn image_row(m: ImageModel, cached: bool) -> (Seq<char>, Seq<char>, Option<u64>, Seq<char>) {
    (image_display_name(m), m.arch.name_spec(), m.size, cached_cell(cached))
}

/// Whether the table shows an image: every image with `all`, else those for
/// the host's architecture.
pub open spec fn shows_image(all: bool, host: Arch, m: ImageModel) -> bool {
    all || m.arch == host
}

/// The rows of the images that the table shows, in the order of `images`;
/// `cached[i]` says whether `images[i]` is cached.
pub open spec fn image_rows(all: bool, host: Arch, images: Seq<Image>, cached: Seq<bool>) -> Seq<(Seq<char>, Seq<char>, Option<u64>, Seq<char>)>
    decreases images.len(),
{
    if images.len() == 0 {
        Seq::empty()
    } else {
        let rest = image_rows(all, host, images.drop_last(), cached.take(images.len() - 1));
        if shows_image(all, host, images.last()@) {
            rest.push(image_row(images.last()@, cached[images.len() - 1]))
        } else {
            rest
        }
    }
}

/// List VM images
pub struct ListImageCommand {
    /// Show the images of every architecture, not only the host's.
    pub all: bool,
}

impl ListImageCommand {
    /// The command; `all` lists the images of every architecture.
    pub fn new(all: bool) -> (r: ListImageCommand)
        ensures
            r.all == all,
    {
        ListImageCommand { all }
    }

    /// The column titles of the table.
    pub fn header() -> (r: Vec<String>)
        ensures
            r.deep_view() == seq!["Name"@, "Arch"@, "Size"@, "Cached"@],
    {
        proof {
            reveal_strlit("Name");
            reveal_strlit("Arch");
            reveal_strlit("Size");
            reveal_strlit("Cached");
        }
        let r = vec!["Name".to_owned(), "Arch".to_owned(), "Size".to_owned(), "Cached".to_owned()];
        assert(r.deep_view() =~= seq!["Name"@, "Arch"@, "Size"@, "Cached"@]);
        r
    }

    /// The rows of the table: the images that it shows (see `shows_image`),
    /// in order, each with its name, architecture, size and whether it is
    /// cached, which `cached[i]` says of `images[i]`.
    pub fn rows(&self, images: &Vec<Image>, host: Arch, cached: &Vec<bool>) -> (r: Vec<ImageRow>)
        requires
            cached.len() == images.len(),
        ensures
            r@.map_values(|row: ImageRow| row@) == image_rows(self.all, host, images@, cached@),
    {
        let mut rows: Vec<ImageRow> = Vec::new();
        let mut i: usize = 0;
        assert(rows@.map_values(|row: ImageRow| row@) =~= image_rows(self.all, host, images@.take(0), cached@.take(0)));
        while i < images.len()
            invariant
                i <= images@.len(),
                cached@.len() == images@.len(),
                rows@.map_values(|row: ImageRow| row@) == image_rows(self.all, host, images@.take(i as int), cached@.take(i as int)),
            decreases images@.len() - i,
        {
            let image = &images[i];
            let ghost before = rows@.map_values(|row: ImageRow| row@);
            assert(images@.take(i + 1).drop_last() =~= images@.take(i as int));
            assert(cached@.take(i + 1).take(i as int) =~= cached@.take(i as int));
            if self.all || image.arch == host {
                proof {
                    reveal_strlit("yes");
                    reveal_strlit("no");
                }
                let row = ImageRow {
                    name: image.get_image_name(),
                    arch: image.arch.to_string(),
                    size: image.size,
                    cached: if cached[i] {
                        "yes".to_owned()
                    } else {
                        "no".to_owned()
                    },
                };
                rows.push(row);
                assert(rows@.map_values(|row: ImageRow| row@) =~= before.push(image_row(image@, cached@[i as int])));
            }
            i = i + 1;
        }
        assert(images@.take(i as int) =~= images@);
        assert(cached@.take(i as int) =~= cached@);
        rows
    }
}

} // verus!

verus! {

/// With `all`, the table has a row for every image; without it, a row for
/// every image of the host's architecture and no other.
pub proof fn law_rows_follow_the_arch_filter(all: bool, host: Arch, images: Seq<Image>, cached: Seq<bool>)
    requires
        cached.len() == images.len(),
    ensures
        all ==> image_rows(all, host, images, cached).len() == images.len(),
        forall|k: int|
            0 <= k < image_rows(all, host, images, cached).len() ==> (all
                || #[trigger] image_rows(all, host, images, cached)[k].1 == host.name_spec()),
    decreases images.len(),
{
    if images.len() > 0 {
        let rest_images = images.drop_last();
        let rest_cached = cached.take(images.len() - 1);
        law_rows_follow_the_arch_filter(all, host, rest_images, rest_cached);
        let rest = image_rows(all, host, rest_images, rest_cached);
        let rows = image_rows(all, host, images, cached);
        assert forall|k: int| 0 <= k < rows.len() implies (all || #[trigger] rows[k].1 == host.name_spec()) by {
            if k < rest.len() {
                assert(rows[k] == rest[k]);
            }
        }
    }
}

} // verus!
