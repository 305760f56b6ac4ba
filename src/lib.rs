//! Compiles block-based scripts (statements holding parameter slots) into the
//! JSON block list that the game's code-block plugin reads, and packs that
//! list into a gzip + base64 payload.
pub mod code_line;
pub mod payload;
pub mod params;
pub mod program;
pub mod serialization;
pub mod statements;
pub mod text;
pub mod values;
