pub mod system;
pub mod system_command;
pub mod system_mock;

pub use system::System;
pub use system_command::SystemCommand;
pub use system_mock::SystemMock;
