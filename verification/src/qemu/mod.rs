pub mod image_info;
pub mod json;
pub mod qemu_img;

pub use image_info::ImageInfo;
pub use qemu_img::QemuImg;
