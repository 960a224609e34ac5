//! Value-level core of the FMOD bindings: the raw-value wrappers behind flag
//! sets, strict and open enums, mirrored structs and resource classes, and the
//! small build-time decisions of the sys crates.

pub mod build_helper;
pub mod class;
pub mod constants;
pub mod flags;
pub mod header;
pub mod link;
pub mod macros;
pub mod strict_enum;
pub mod structs;
pub mod text;
pub mod typedef_enum;
pub mod version;
