use crate::models::instance_name::{instance_name_rejection, is_valid_name, valid_name, InstanceName};
use crate::text::{chars_of, split_chars, split_on, string_from_chars};
use crate::util::ParseName;
use vstd::prelude::*;

verus! {

/// The reason given for a text without `/`.
pub open spec fn missing_separator_rejection() -> Seq<char> {
    "Snapshot must be written as <instance>/<snapshot>"@
}

/// The reason given for an invalid snapshot part.
pub open spec fn snapshot_name_rejection() -> Seq<char> {
    "Snapshot name must only contain letters, numbers, underlines and dashes"@
}

/// What reading `<instance>/<snapshot>` gives: the instance and snapshot
/// parts, or the reason for refusing the text. The text after the first `/`
/// must be a valid name (so it holds no further `/`), then the text before
/// it must be a valid instance name.
pub open spec fn snapshot_parse(text: Seq<char>) -> Result<(Seq<char>, Seq<char>), Seq<char>> {
    let parts = split_on(text, '/');
    if parts.len() < 2 {
        Err(missing_separator_rejection())
    } else if parts.len() != 2 || !is_valid_name(parts[1]) {
        Err(snapshot_name_rejection())
    } else if !is_valid_name(parts[0]) {
        Err(instance_name_rejection())
    } else {
        Ok((parts[0], parts[1]))
    }
}

/// A fully qualified snapshot reference, written as `<instance>/<snapshot>`.
#[derive(Clone, Debug, PartialEq, Eq, Hash)]
pub struct SnapshotName {
    instance: InstanceName,
    name: String,
}

impl View for SnapshotName {
    type V = (Seq<char>, Seq<char>);

    closed spec fn view(&self) -> (Seq<char>, Seq<char>) {
        (self.instance@, self.name@)
    }
}

/// The written form of a snapshot reference.
pub open spec fn snapshot_text(v: (Seq<char>, Seq<char>)) -> Seq<char> {
    v.0 + seq!['/'] + v.1
}

impl SnapshotName {
    /// Reads `<instance>/<snapshot>`.
    pub fn from_str(value: &str) -> (r: Result<SnapshotName, String>)
        ensures
            r is Ok <==> snapshot_parse(value@) is Ok,
            r matches Ok(n) ==> snapshot_parse(value@) == Ok::<(Seq<char>, Seq<char>), Seq<char>>(n@),
            r matches Err(e) ==> snapshot_parse(value@) == Err::<(Seq<char>, Seq<char>), Seq<char>>(e@),
    {
        let v = chars_of(value);
        let parts = split_chars(v.as_slice(), '/');
        proof {
            crate::text::lemma_split_on_nonempty(value@, '/');
            assert(parts.deep_view().len() == parts@.len());
        }
        if parts.len() < 2 {
            return Err("Snapshot must be written as <instance>/<snapshot>".to_owned());
        }
        proof {
            assert(parts.deep_view()[1] =~= parts@[1]@);
            assert(parts.deep_view()[0] =~= parts@[0]@);
        }
        if parts.len() != 2 || !valid_name(parts[1].as_slice()) {
            return Err(
                "Snapshot name must only contain letters, numbers, underlines and dashes".to_owned(),
            );
        }
        let instance_text = string_from_chars(parts[0].as_slice());
        let instance = match InstanceName::from_str(instance_text.as_str()) {
            Ok(instance) => instance,
            Err(e) => return Err(e),
        };
        let name = string_from_chars(parts[1].as_slice());
        Ok(SnapshotName { instance, name })
    }

    /// The instance the snapshot belongs to.
    pub fn get_instance(&self) -> (r: &InstanceName)
        ensures
            r@ == self@.0,
    {
        &self.instance
    }

    /// The snapshot part of the reference.
    pub fn as_str(&self) -> (r: &str)
        ensures
            r@ == self@.1,
    {
        self.name.as_str()
    }

    /// The reference written as `<instance>/<snapshot>`.
    pub fn to_string(&self) -> (r: String)
        ensures
            r@ == snapshot_text(self@),
    {
        let mut r = self.instance.to_string();
        crate::text::push_char(&mut r, '/');
        crate::text::push_str(&mut r, self.name.as_str());
        r
    }
}


/// A text that reads as a snapshot reference is exactly the written form of
/// the parts it reads as.
pub proof fn lemma_snapshot_text_round_trip(text: Seq<char>)
    requires
        snapshot_parse(text) is Ok,
    ensures
        snapshot_text(snapshot_parse(text)->Ok_0) == text,
{
    crate::text::lemma_split_two(text, '/');
}

} // verus!

verus! {

/// Law: the written form `<instance>/<snapshot>` of valid parts reads back
/// as exactly those parts.
pub proof fn law_snapshot_round_trip(instance: Seq<char>, name: Seq<char>)
    requires
        is_valid_name(instance),
        is_valid_name(name),
    ensures
        snapshot_parse(snapshot_text((instance, name))) == Ok::<(Seq<char>, Seq<char>), Seq<char>>(
            (instance, name),
        ),
{
    crate::models::instance_name::law_valid_name_stays_in_directory(instance);
    crate::models::instance_name::law_valid_name_stays_in_directory(name);
    let parts = seq![instance, name];
    assert(parts.drop_last() =~= seq![instance]);
    assert(crate::text::join(seq![instance], seq!['/']) == instance);
    assert(crate::text::join(parts, seq!['/']) == crate::text::join(seq![instance], seq!['/']) + seq!['/'] + name);
    assert(crate::text::join(parts, seq!['/']) == snapshot_text((instance, name)));
    crate::text::lemma_split_join(parts, '/');
}

} // verus!

verus! {

impl ParseName for SnapshotName {
    fn parse_name(text: &str) -> (r: Result<Self, String>)
        ensures
            r is Ok <==> snapshot_parse(text@) is Ok,
            r matches Ok(n) ==> snapshot_parse(text@) == Ok::<(Seq<char>, Seq<char>), Seq<char>>(n@)
                && snapshot_text(n@) == text@,
            r matches Err(e) ==> snapshot_parse(text@) == Err::<(Seq<char>, Seq<char>), Seq<char>>(e@),
    {
        let r = SnapshotName::from_str(text);
        proof {
            if r is Ok {
                lemma_snapshot_text_round_trip(text@);
            }
        }
        r
    }

    fn to_text(&self) -> (r: String)
        ensures
            r@ == snapshot_text(self@),
    {
        self.to_string()
    }
}

} // verus!
