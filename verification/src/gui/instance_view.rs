use vstd::prelude::*;

verus! {

/// The details pane of one instance.
pub struct InstanceView {
    name: String,
}

impl InstanceView {
    /// The name the pane shows.
    pub closed spec fn name_view(&self) -> Seq<char> {
        self.name@
    }

    /// The name the pane shows.
    pub fn get_name(&self) -> (r: &str)
        ensures
            r@ == self.name_view(),
    {
        self.name.as_str()
    }
}

impl Default for InstanceView {
    fn default() -> (r: Self)
        ensures
            r.name_view() == Seq::<char>::empty(),
    {
        InstanceView { name: String::new() }
    }
}

} // verus!
