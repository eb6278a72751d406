pub mod instance_store;

pub use instance_store::InstanceStore;
