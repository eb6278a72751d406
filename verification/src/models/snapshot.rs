use vstd::prelude::*;

verus! {

/// A qcow2 internal snapshot, addressed by name
#[derive(Debug, PartialEq)]
pub struct Snapshot {
    pub name: String,
}

impl Clone for Snapshot {
    fn clone(&self) -> (r: Self)
        ensures
            r.name@ == self.name@,
    {
        Snapshot { name: crate::text::copy_str(self.name.as_str()) }
    }
}

} // verus!
