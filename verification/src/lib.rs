pub mod config;
pub mod context;
pub mod iiif;
pub mod image;
pub mod meta;
pub mod metadata;
pub mod request;
pub mod text;
