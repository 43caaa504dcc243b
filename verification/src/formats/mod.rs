//! Decoders of module files.

pub mod modfile;
pub mod tags;
