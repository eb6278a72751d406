use crate::models::instance_name::{instance_name_rejection, is_valid_name, InstanceName};
use crate::models::snapshot_name::{snapshot_parse, snapshot_text, SnapshotName};
use crate::text::{chars_of, contains_char};
use crate::util::ParseName;
use vstd::prelude::*;

verus! {

/// A command target that is either a whole instance or one of its snapshots,
/// written as `<instance>` or `<instance>/<snapshot>`.
#[derive(Clone, Debug, PartialEq, Eq, Hash)]
pub enum InstanceSnapshotName {
    Instance(InstanceName),
    Snapshot(SnapshotName),
}

impl InstanceSnapshotName {
    /// The written form of the target.
    pub open spec fn written_form(&self) -> Seq<char> {
        match self {
            InstanceSnapshotName::Instance(i) => i@,
            InstanceSnapshotName::Snapshot(s) => snapshot_text(s@),
        }
    }

    /// The instance of the target.
    pub open spec fn instance_view(&self) -> Seq<char> {
        match self {
            InstanceSnapshotName::Instance(i) => i@,
            InstanceSnapshotName::Snapshot(s) => s@.0,
        }
    }

    /// The instance of the target, also for a snapshot.
    pub fn get_instance(&self) -> (r: &InstanceName)
        ensures
            r@ == self.instance_view(),
    {
        match self {
            InstanceSnapshotName::Instance(instance) => instance,
            InstanceSnapshotName::Snapshot(snapshot) => snapshot.get_instance(),
        }
    }

    /// The snapshot of the target, if it names one.
    pub fn get_snapshot(&self) -> (r: Option<&SnapshotName>)
        ensures
            r is Some <==> self is Snapshot,
            r matches Some(s) ==> self == InstanceSnapshotName::Snapshot(*s),
    {
        match self {
            InstanceSnapshotName::Instance(_) => None,
            InstanceSnapshotName::Snapshot(snapshot) => Some(snapshot),
        }
    }

    /// Reads `<instance>` or, when the text holds a `/`, `<instance>/<snapshot>`.
    pub fn from_str(name: &str) -> (r: Result<InstanceSnapshotName, String>)
        ensures
            name@.contains('/') ==> {
                &&& r is Ok <==> snapshot_parse(name@) is Ok
                &&& r matches Ok(v) ==> v matches InstanceSnapshotName::Snapshot(s)
                    && snapshot_parse(name@) == Ok::<(Seq<char>, Seq<char>), Seq<char>>(s@)
                &&& r matches Err(e) ==> snapshot_parse(name@) == Err::<(Seq<char>, Seq<char>), Seq<char>>(e@)
            },
            !name@.contains('/') ==> {
                &&& r is Ok <==> is_valid_name(name@)
                &&& r matches Ok(v) ==> v matches InstanceSnapshotName::Instance(i) && i@ == name@
                &&& r matches Err(e) ==> e@ == instance_name_rejection()
            },
    {
        let v = chars_of(name);
        if contains_char(v.as_slice(), '/') {
            match SnapshotName::from_str(name) {
                Ok(snapshot) => Ok(InstanceSnapshotName::Snapshot(snapshot)),
                Err(e) => Err(e),
            }
        } else {
            match InstanceName::from_str(name) {
                Ok(instance) => Ok(InstanceSnapshotName::Instance(instance)),
                Err(e) => Err(e),
            }
        }
    }

    /// The target in its written form.
    pub fn to_string(&self) -> (r: String)
        ensures
            r@ == self.written_form(),
    {
        match self {
            InstanceSnapshotName::Instance(instance) => instance.to_string(),
            InstanceSnapshotName::Snapshot(snapshot) => snapshot.to_string(),
        }
    }
}

} // verus!

verus! {

impl ParseName for InstanceSnapshotName {
    /// Reads the target as `from_str` does.
    fn parse_name(text: &str) -> (r: Result<Self, String>)
        ensures
            text@.contains('/') ==> {
                &&& r is Ok <==> snapshot_parse(text@) is Ok
                &&& r matches Ok(v) ==> v matches InstanceSnapshotName::Snapshot(s)
                    && snapshot_parse(text@) == Ok::<(Seq<char>, Seq<char>), Seq<char>>(s@)
                &&& r matches Err(e) ==> snapshot_parse(text@) == Err::<(Seq<char>, Seq<char>), Seq<char>>(e@)
            },
            !text@.contains('/') ==> {
                &&& r is Ok <==> is_valid_name(text@)
                &&& r matches Ok(v) ==> v matches InstanceSnapshotName::Instance(i) && i@ == text@
                &&& r matches Err(e) ==> e@ == instance_name_rejection()
            },
    {
        InstanceSnapshotName::from_str(text)
    }

    fn to_text(&self) -> (r: String)
        ensures
            r@ == self.written_form(),
    {
        self.to_string()
    }
}

} // verus!
