pub mod either;
pub mod find;

pub use either::{Either, ParseName};
pub use find::find_and_extract;
