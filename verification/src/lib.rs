//! Image transcoding for the web, a transient cache of transcoded buffers, and
//! the request-building and response-handling rules of two upload providers.

pub mod text;
pub mod models;
pub mod image_processor;
pub mod state;
pub mod cloudinary;
pub mod r2;
pub mod commands;
