//! Turns a bencoded torrent descriptor into an export structure in which the
//! piece hashes are listed one by one and every file of a multi-file torrent
//! carries the range of pieces it occupies.

pub mod bencode;
pub mod convert;
pub mod decode;
pub mod error;
pub mod export;
pub mod model;
pub mod pieces;
pub mod ranges;
pub mod text;
