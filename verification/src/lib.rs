pub mod commands;
pub mod error;
pub mod gui;
pub mod image;
pub mod instance;
pub mod platform;
pub mod qemu;
pub mod models;
pub mod text;
pub mod util;
pub mod view;
