pub mod args;
pub mod binding;
pub mod callable;
pub mod dict;
pub mod errors;
pub mod laws;
pub mod render;
pub mod signature;
pub mod values;
