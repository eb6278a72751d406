pub mod confirm_dialog;
pub mod console;
pub mod spinner;

pub use confirm_dialog::ConfirmDialog;
pub use console::Console;
pub use spinner::Spinner;
