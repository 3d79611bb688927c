pub mod profile;
pub mod accumulator;
pub mod clam_cache;
