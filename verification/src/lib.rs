//! Reader for the "CC" archive container of the World of Xeen games.
//!
//! An archive is a two-byte little-endian member count, an encrypted table of
//! contents of eight bytes per member, and the members' bytes. The modules
//! follow the stages of reading one: the ciphers, the table of contents, the
//! display names, the extraction of the members, and the whole pipeline on an
//! archive held in memory.

pub mod archive;
pub mod cipher;
pub mod game;
pub mod members;
pub mod names;
pub mod output;
pub mod toc;
