//! A decoder and a player for Amiga modules.
//!
//! [`formats::modfile::parse`] turns the bytes of a module file into a
//! [`song::Song`]; an [`engine::Engine`] plays a song tick by tick and mixes
//! its channels into frames of audio. The functions carry contracts that say
//! what they return or change, and are verified against them.

pub mod bytereader;
pub mod engine;
pub mod formats;
pub mod song;
pub mod tracker;
