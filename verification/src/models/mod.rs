pub mod arch;
pub mod data_size;
pub mod environment;
pub mod image;
pub mod image_name;
pub mod image_order;
pub mod instance;
pub mod instance_name;
pub mod instance_snapshot_name;
pub mod port_forward;
pub mod snapshot;
pub mod snapshot_name;
pub mod template;
pub mod user_name;

pub use arch::Arch;
pub use data_size::DataSize;
pub use environment::Environment;
pub use image::{HashAlg, Image};
pub use image_name::ImageName;
pub use instance::Instance;
pub use instance_name::InstanceName;
pub use port_forward::{PortForward, PortProtocol};
pub use instance_snapshot_name::InstanceSnapshotName;
pub use snapshot::Snapshot;
pub use snapshot_name::SnapshotName;
pub use template::{Template, TomlItem};
pub use user_name::UserName;
