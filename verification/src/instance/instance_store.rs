use crate::error::Error;
use crate::models::instance::Instance;
use crate::models::instance_name::InstanceName;
use vstd::prelude::*;

verus! {

/// Where the VM instances are kept: on disk for the application, in memory
/// for a test.
pub trait InstanceStore {
    /// Loads the instance called `name`; an unknown name is `UnknownInstance`.
    fn load(&self, name: &InstanceName) -> Result<Instance, Error>;

    /// Gives `instance` the name `new_name`, moving what the store keeps of it.
    fn rename(&self, instance: Instance, new_name: &InstanceName) -> Result<(), Error>;
}

} // verus!
