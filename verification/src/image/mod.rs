pub mod image_factory;
pub mod image_provider;
pub mod ubuntu_image_provider;


pub use image_factory::ImageFactory;
pub use image_provider::ImageProvider;
pub use ubuntu_image_provider::UbuntuImageProvider;
