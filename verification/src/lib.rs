//! A small persistence layer for ephemeral "box" registration records —
//! a public IP, an opaque tunnel message, a configuration flag and a
//! timestamp — kept in a single SQLite table, together with the error
//! taxonomy that maps failures into a stable `{code, errno, error}` wire
//! format for the surrounding HTTP service.

pub mod clock;
pub mod db;
pub mod errors;
pub mod sql;
