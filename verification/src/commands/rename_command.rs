//! `cubic rename`: gives a VM instance a new name.
use crate::error::Error;
use crate::instance::InstanceStore;
use crate::models::instance::Instance;
use crate::models::instance_name::InstanceName;
use vstd::prelude::*;

verus! {

/// Rename a VM instance
///
/// Examples:
///
///   Rename the VM instance 'noble' in 'ubuntu':
///   $ cubic rename noble ubuntu
pub struct RenameCommand {
    /// Name of the virtual machine instance to rename
    pub old_name: InstanceName,
    /// New name of the virtual machine instance
    pub new_name: InstanceName,
}

impl RenameCommand {
    /// Renames `old_name` to `new_name`.
    pub fn new(old_name: InstanceName, new_name: InstanceName) -> (r: RenameCommand)
        ensures
            r.old_name == old_name,
            r.new_name == new_name,
    {
        RenameCommand { old_name, new_name }
    }

    /// Loads the instance from `store` and has the store rename it. When the
    /// instance cannot be loaded, that error is the answer and nothing is
    /// renamed; otherwise the store is asked to give the loaded instance the
    /// new name, and its answer is the answer.
    pub fn run<S: InstanceStore>(&self, store: &S) -> (r: Result<(), Error>)
        ensures
            exists|loaded: Result<Instance, Error>|
                call_ensures(S::load, (store, &self.old_name), loaded) && match loaded {
                    Err(e) => r == Err::<(), Error>(e),
                    Ok(instance) => call_ensures(S::rename, (store, instance, &self.new_name), r),
                },
    {
        match store.load(&self.old_name) {
            Err(e) => Err(e),
            Ok(instance) => store.rename(instance, &self.new_name),
        }
    }
}

} // verus!
