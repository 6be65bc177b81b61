pub mod image;
pub mod processor;
