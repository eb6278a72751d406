pub mod app_state;
pub mod instance_view;
pub mod message;
pub mod plane_view;

pub use app_state::MyApp;
pub use instance_view::InstanceView;
pub use message::{Message, Selection};
pub use plane_view::PlaneView;
