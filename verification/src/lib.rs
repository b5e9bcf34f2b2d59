//! Core of a small multi-page memo pad: the state of each page, the rules
//! for loading and saving files, the global settings and the character
//! encoding conversions, with their contracts proved by Verus.

pub mod encoding;
pub mod error;
pub mod path;
pub mod memo;
pub mod setting;
pub mod manager;
pub mod laws;
pub mod flow;
