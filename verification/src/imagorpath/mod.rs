pub mod color;
pub mod filter;
pub mod hasher;
pub mod normalize;
pub mod params;
pub mod parse;
pub mod type_utils;
pub mod values;
