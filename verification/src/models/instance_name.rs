use crate::text::{chars_of, is_word_char, word_char};
use crate::util::ParseName;
use vstd::prelude::*;

verus! {

/// A character allowed in instance, snapshot and user names: a word
/// character (`\w`, which includes `_`) or a dash.
pub open spec fn is_name_char(c: char) -> bool {
    is_word_char(c) || c == '-'
}

/// A non-empty run of name characters (the pattern `^[\w_-]+$`).
pub open spec fn is_valid_name(s: Seq<char>) -> bool {
    s.len() > 0 && forall|i: int| 0 <= i < s.len() ==> is_name_char(#[trigger] s[i])
}

/// Whether `v` is a non-empty run of name characters.
pub fn valid_name(v: &[char]) -> (r: bool)
    ensures
        r == is_valid_name(v@),
{
    if v.len() == 0 {
        return false;
    }
    let mut i: usize = 0;
    while i < v.len()
        invariant
            i <= v@.len(),
            forall|j: int| 0 <= j < i ==> is_name_char(#[trigger] v@[j]),
        decreases v@.len() - i,
    {
        let c = v[i];
        if !(word_char(c) || c == '-') {
            assert(!is_name_char(v@[i as int]));
            return false;
        }
        i = i + 1;
    }
    true
}

/// The reason given for an invalid instance name.
pub open spec fn instance_name_rejection() -> Seq<char> {
    "Instance name must only contain letters, numbers, underlines and dashes"@
}

/// The name of a VM instance.
#[derive(Clone, Debug, PartialEq, Eq, Hash)]
pub struct InstanceName {
    name: String,
}

impl View for InstanceName {
    type V = Seq<char>;

    closed spec fn view(&self) -> Seq<char> {
        self.name@
    }
}

impl InstanceName {
    /// Reads an instance name; it must be a non-empty run of name characters.
    pub fn from_str(text: &str) -> (r: Result<InstanceName, String>)
        ensures
            r is Ok <==> is_valid_name(text@),
            r matches Ok(n) ==> n@ == text@,
            r matches Err(e) ==> e@ == instance_name_rejection(),
    {
        let v = chars_of(text);
        if valid_name(v.as_slice()) {
            Ok(InstanceName { name: text.to_owned() })
        } else {
            Err("Instance name must only contain letters, numbers, underlines and dashes".to_owned())
        }
    }

    /// The name as written.
    pub fn as_str(&self) -> (r: &str)
        ensures
            r@ == self@,
    {
        self.name.as_str()
    }

    /// The name as a new string.
    pub fn to_string(&self) -> (r: String)
        ensures
            r@ == self@,
    {
        self.name.as_str().to_owned()
    }
}


} // verus!

verus! {

/// Law: a valid name holds neither `/` nor `.`, so a name can never lead
/// out of the directory that holds it (no `..`, no separator).
pub proof fn law_valid_name_stays_in_directory(s: Seq<char>)
    requires
        is_valid_name(s),
    ensures
        !s.contains('/'),
        !s.contains('.'),
{
    if s.contains('/') {
        let k = choose|k: int| 0 <= k < s.len() && s[k] == '/';
        assert(is_name_char(s[k]));
    }
    if s.contains('.') {
        let k = choose|k: int| 0 <= k < s.len() && s[k] == '.';
        assert(is_name_char(s[k]));
    }
}

} // verus!

verus! {

impl ParseName for InstanceName {
    fn parse_name(text: &str) -> (r: Result<Self, String>)
        ensures
            r is Ok <==> is_valid_name(text@),
            r matches Ok(n) ==> n@ == text@,
            r matches Err(e) ==> e@ == instance_name_rejection(),
    {
        InstanceName::from_str(text)
    }

    fn to_text(&self) -> (r: String)
        ensures
            r@ == self@,
    {
        self.to_string()
    }
}

} // verus!
