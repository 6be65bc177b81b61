//! Path grammar, key derivation and processing decisions of an image service.
pub mod config;
pub mod cyberpunkpath;
mod digest;
pub mod grammar;
pub mod imagorpath;
pub mod processor;
pub mod service;
pub mod storage;
pub mod text;
