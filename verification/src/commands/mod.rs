pub mod list_image_command;
pub mod rename_command;

pub use list_image_command::{ImageRow, ListImageCommand};
pub use rename_command::RenameCommand;
