use vstd::prelude::*;

verus! {

/// For the regular expression `pattern` searched through `content`: `None`
/// when the pattern does not compile, else group 1 of each successive
/// non-overlapping match (`None` where the group took no part).
pub uninterp spec fn regex_group_matches(pattern: Seq<char>, content: Seq<char>) -> Option<
    Seq<Option<Seq<char>>>,
>;

/// `regex::Regex::new(pattern)` then `captures_iter(content)`, keeping group
/// 1 of every match. The result is named `regex_group_matches`: the regex
/// semantics are not stated here, only that the result depends on the
/// pattern and the content alone.
#[verifier::external_body]
fn regex_captures(pattern: &str, content: &str) -> (r: Option<Vec<Option<String>>>)
    ensures
        r.deep_view() == regex_group_matches(pattern@, content@),
{
    match regex::Regex::new(pattern) {
        Ok(re) => Some(
            re.captures_iter(content).map(|c| c.get(1).map(|m| m.as_str().to_string())).collect(),
        ),
        Err(_) => None,
    }
}

/// The texts that group 1 captured, in order; nothing for a pattern that
/// does not compile.
pub open spec fn captured_texts(found: Option<Seq<Option<Seq<char>>>>) -> Seq<Seq<char>> {
    match found {
        None => Seq::empty(),
        Some(groups) => present_texts(groups),
    }
}

/// The captured texts of the matches where group 1 took part.
pub open spec fn present_texts(groups: Seq<Option<Seq<char>>>) -> Seq<Seq<char>>
    decreases groups.len(),
{
    if groups.len() == 0 {
        Seq::empty()
    } else {
        let rest = present_texts(groups.drop_last());
        match groups.last() {
            Some(t) => rest.push(t),
            None => rest,
        }
    }
}

/// Keeps the captured texts of the matches where group 1 took part.
pub fn keep_present(groups: Vec<Option<String>>) -> (r: Vec<String>)
    ensures
        r.deep_view() == present_texts(groups.deep_view()),
{
    let mut r: Vec<String> = Vec::new();
    let mut i: usize = 0;
    let ghost all = groups.deep_view();
    while i < groups.len()
        invariant
            i <= groups@.len(),
            all == groups.deep_view(),
            r.deep_view() == present_texts(all.take(i as int)),
        decreases groups@.len() - i,
    {
        proof {
            assert(all.take(i + 1).drop_last() =~= all.take(i as int));
            assert(all[i as int] == groups@[i as int].deep_view());
        }
        let ghost before = r.deep_view();
        match &groups[i] {
            Some(t) => {
                r.push(crate::text::copy_str(t.as_str()));
                assert(r.deep_view() =~= before.push(t@));
            },
            None => {},
        }
        i = i + 1;
    }
    assert(all.take(groups@.len() as int) =~= all);
    r
}

/// Searches `content` for `pattern` and returns what its first group
/// captured in each match, in order.
pub fn find_and_extract(pattern: &str, content: &str) -> (r: Vec<String>)
    ensures
        r.deep_view() == captured_texts(regex_group_matches(pattern@, content@)),
{
    match regex_captures(pattern, content) {
        None => Vec::new(),
        Some(groups) => keep_present(groups),
    }
}

} // verus!
