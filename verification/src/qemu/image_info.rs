use crate::models::instance::snapshot_names;
use crate::models::snapshot::Snapshot;
use crate::qemu::json::{
    json_array_len, json_array_len_at, json_has, json_has_value, json_str, json_str_at, json_u64,
    json_u64_at,
};
use crate::text::{decimal, decimal_string, push_str};
use vstd::prelude::*;

verus! {

/// What `qemu-img info` reports of a disk image.
#[derive(Debug)]
pub struct ImageInfo {
    pub actual_size: u64,
    pub virtual_size: u64,
    /// Absent from the report until the image holds its first snapshot.
    pub snapshots: Vec<Snapshot>,
}

/// The view of an optional disk report: sizes and snapshot names.
pub open spec fn info_view(info: Option<ImageInfo>) -> Option<(u64, u64, Seq<Seq<char>>)> {
    match info {
        Some(i) => Some((i.actual_size, i.virtual_size, snapshot_names(i.snapshots@))),
        None => None,
    }
}

/// A size field that may be written under its name or its alias: `None`
/// when both are present, or when the one present is not a `u64`.
pub open spec fn size_member(text: Seq<char>, name: Seq<char>, alias: Seq<char>) -> Option<u64> {
    let by_name = json_has(text, "/"@ + name);
    let by_alias = json_has(text, "/"@ + alias);
    if by_name && by_alias {
        None
    } else if by_name {
        json_u64_at(text, "/"@ + name)
    } else if by_alias {
        json_u64_at(text, "/"@ + alias)
    } else {
        None
    }
}

/// The pointer to the element at `index` of the array at `list`.
pub open spec fn element_pointer(list: Seq<char>, index: nat) -> Seq<char> {
    list + "/"@ + decimal(index)
}

/// The name of the snapshot at pointer `at`: an object's string `name`, or
/// the one string of a one-element array (the sequence form of a snapshot).
pub open spec fn snapshot_name_at(text: Seq<char>, at: Seq<char>) -> Option<Seq<char>> {
    match json_array_len_at(text, at) {
        Some(n) => if n == 1 {
            json_str_at(text, at + "/0"@)
        } else {
            None
        },
        None => json_str_at(text, at + "/name"@),
    }
}

/// The names of the first `n` snapshots of the array at `list`, when each
/// has one.
pub open spec fn first_snapshot_names(text: Seq<char>, list: Seq<char>, n: nat) -> Option<Seq<Seq<char>>>
    decreases n,
{
    if n == 0 {
        Some(Seq::empty())
    } else {
        match (
            first_snapshot_names(text, list, (n - 1) as nat),
            snapshot_name_at(text, element_pointer(list, (n - 1) as nat)),
        ) {
            (Some(names), Some(name)) => Some(names.push(name)),
            _ => None,
        }
    }
}

/// The snapshot names of the array at `list`: it must be an array whose
/// elements each have a name.
pub open spec fn snapshots_at(text: Seq<char>, list: Seq<char>) -> Option<Seq<Seq<char>>> {
    match json_array_len_at(text, list) {
        Some(n) => first_snapshot_names(text, list, n as nat),
        None => None,
    }
}

/// The snapshot names of a report object: none when `snapshots` is absent.
pub open spec fn report_snapshots(text: Seq<char>) -> Option<Seq<Seq<char>>> {
    if !json_has(text, "/snapshots"@) {
        Some(Seq::empty())
    } else {
        snapshots_at(text, "/snapshots"@)
    }
}

/// What a `qemu-img info --output json` report reads as. As an object: its
/// actual and virtual size (each also written with a dash) and its snapshot
/// names. As an array (the sequence form of the same fields): the actual
/// size, the virtual size and, when there is a third element, the snapshots.
pub open spec fn image_info_report(text: Seq<char>) -> Option<(u64, u64, Seq<Seq<char>>)> {
    match json_array_len_at(text, ""@) {
        Some(n) => if n == 2 || n == 3 {
            let snapshots = if n == 3 {
                snapshots_at(text, "/2"@)
            } else {
                Some(Seq::empty())
            };
            match (json_u64_at(text, "/0"@), json_u64_at(text, "/1"@), snapshots) {
                (Some(actual), Some(virtual_size), Some(names)) => Some((actual, virtual_size, names)),
                _ => None,
            }
        } else {
            None
        },
        None => match (
            size_member(text, "actual_size"@, "actual-size"@),
            size_member(text, "virtual_size"@, "virtual-size"@),
            report_snapshots(text),
        ) {
            (Some(actual), Some(virtual_size), Some(names)) => Some((actual, virtual_size, names)),
            _ => None,
        },
    }
}

fn member_pointer(name: &str) -> (r: String)
    ensures
        r@ == "/"@ + name@,
{
    let mut r = "/".to_owned();
    push_str(&mut r, name);
    r
}

/// A size field read under its name or its alias.
fn size_field(text: &str, name: &str, alias: &str) -> (r: Option<u64>)
    ensures
        r == size_member(text@, name@, alias@),
{
    let name = member_pointer(name);
    let alias = member_pointer(alias);
    let by_name = json_has_value(text, name.as_str());
    let by_alias = json_has_value(text, alias.as_str());
    if by_name && by_alias {
        None
    } else if by_name {
        json_u64(text, name.as_str())
    } else if by_alias {
        json_u64(text, alias.as_str())
    } else {
        None
    }
}

fn element_pointer_exec(list: &str, index: usize) -> (r: String)
    ensures
        r@ == element_pointer(list@, index as nat),
{
    let mut r = crate::text::copy_str(list);
    push_str(&mut r, "/");
    let digits = decimal_string(index as u64);
    push_str(&mut r, digits.as_str());
    r
}

fn snapshot_name(text: &str, at: &str) -> (r: Option<String>)
    ensures
        r.deep_view() == snapshot_name_at(text@, at@),
{
    let mut inner = crate::text::copy_str(at);
    match json_array_len(text, at) {
        Some(n) => if n == 1 {
            push_str(&mut inner, "/0");
            json_str(text, inner.as_str())
        } else {
            None
        },
        None => {
            push_str(&mut inner, "/name");
            json_str(text, inner.as_str())
        },
    }
}

/// The snapshots of the array at `list`.
fn snapshot_list(text: &str, list: &str) -> (r: Option<Vec<Snapshot>>)
    ensures
        match r {
            Some(v) => snapshots_at(text@, list@) == Some(snapshot_names(v@)),
            None => snapshots_at(text@, list@) is None,
        },
{
    let n = match json_array_len(text, list) {
        Some(n) => n,
        None => return None,
    };
    let mut snapshots: Vec<Snapshot> = Vec::new();
    let mut i: usize = 0;
    assert(snapshot_names(snapshots@) =~= Seq::<Seq<char>>::empty());
    while i < n
        invariant
            i <= n,
            json_array_len_at(text@, list@) == Some(n),
            first_snapshot_names(text@, list@, i as nat) == Some(snapshot_names(snapshots@)),
        decreases n - i,
    {
        let at = element_pointer_exec(list, i);
        match snapshot_name(text, at.as_str()) {
            Some(name) => {
                let ghost before = snapshot_names(snapshots@);
                snapshots.push(Snapshot { name });
                assert(snapshot_names(snapshots@) =~= before.push(name@));
            },
            None => {
                proof {
                    lemma_missing_name_stays_missing(text@, list@, i as nat + 1, n as nat);
                }
                return None;
            },
        }
        i = i + 1;
    }
    Some(snapshots)
}

/// Once a snapshot lacks a name, every longer prefix does too.
proof fn lemma_missing_name_stays_missing(text: Seq<char>, list: Seq<char>, k: nat, n: nat)
    requires
        k <= n,
        first_snapshot_names(text, list, k) is None,
    ensures
        first_snapshot_names(text, list, n) is None,
    decreases n - k,
{
    if k < n {
        lemma_missing_name_stays_missing(text, list, k + 1, n);
    }
}

impl ImageInfo {
    /// Reads a `qemu-img info --output json` report: the object's
    /// `actual-size` and `virtual-size` (also written with underscores, but
    /// not both ways at once), and its `snapshots`, which may be absent; or
    /// the same fields in order as an array.
    pub fn from_json(text: &str) -> (r: Option<ImageInfo>)
        ensures
            info_view(r) == image_info_report(text@),
    {
        proof {
            reveal_strlit("");
            reveal_strlit("/0");
            reveal_strlit("/1");
            reveal_strlit("/2");
            reveal_strlit("/snapshots");
            reveal_strlit("actual_size");
            reveal_strlit("actual-size");
            reveal_strlit("virtual_size");
            reveal_strlit("virtual-size");
        }
        if let Some(n) = json_array_len(text, "") {
            if n != 2 && n != 3 {
                return None;
            }
            let actual_size = match json_u64(text, "/0") {
                Some(v) => v,
                None => return None,
            };
            let virtual_size = match json_u64(text, "/1") {
                Some(v) => v,
                None => return None,
            };
            let snapshots = if n == 3 {
                match snapshot_list(text, "/2") {
                    Some(s) => s,
                    None => return None,
                }
            } else {
                let s: Vec<Snapshot> = Vec::new();
                assert(snapshot_names(s@) =~= Seq::<Seq<char>>::empty());
                s
            };
            return Some(ImageInfo { actual_size, virtual_size, snapshots });
        }
        let actual_size = match size_field(text, "actual_size", "actual-size") {
            Some(v) => v,
            None => return None,
        };
        let virtual_size = match size_field(text, "virtual_size", "virtual-size") {
            Some(v) => v,
            None => return None,
        };
        let snapshots = if !json_has_value(text, "/snapshots") {
            let s: Vec<Snapshot> = Vec::new();
            assert(snapshot_names(s@) =~= Seq::<Seq<char>>::empty());
            s
        } else {
            match snapshot_list(text, "/snapshots") {
                Some(s) => s,
                None => return None,
            }
        };
        Some(ImageInfo { actual_size, virtual_size, snapshots })
    }
}

} // verus!
