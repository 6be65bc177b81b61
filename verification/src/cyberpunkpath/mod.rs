pub mod generate;
pub mod hasher;
pub mod params;
pub mod parse;
