//! Batch generation of resized image derivatives: naming, geometry, encoding
//! and the manifest that describes what was produced.

pub mod command_parser;
pub mod convert_image;
pub mod failure;
pub mod file_type;
pub mod image_optimizer;
pub mod laws;
pub mod manifest;
pub mod paths;
pub mod pixels;
pub mod resize_image;
pub mod resize_images;
pub mod text;
