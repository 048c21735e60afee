pub mod buffer;
pub mod config;
pub mod errors;
pub mod fetch;
pub mod listing;
pub mod multipart;
pub mod path;
pub mod range;
pub mod registry;
pub mod request;
pub mod text;
pub mod upload;
