//! The ways in which reading or exporting a descriptor can fail.

use vstd::prelude::*;
use vstd::string::*;

verus! {

/// Why a descriptor could not be read or exported.
#[derive(Debug, PartialEq, Eq)]
pub enum TorrentError {
    /// The decoded value does not have the shape of a descriptor.
    UnsupportedType,
    /// The buffer of piece hashes is not a whole number of 20-byte hashes.
    InvalidPiecesLength,
    /// The input is not well-formed bencode; the payload is the decoder's message.
    Other(String),
}

impl TorrentError {
    /// The text that describes this error.
    pub open spec fn description_text(self) -> Seq<char> {
        match self {
            TorrentError::UnsupportedType => "This type is not supported yet"@,
            TorrentError::InvalidPiecesLength => {
                "The length of the pieces must be dividable by 20"@
            },
            TorrentError::Other(message) => message@,
        }
    }

    /// A human-readable description of the error.
    pub fn description(&self) -> (text: String)
        ensures
            text@ == self.description_text(),
    {
        match self {
            TorrentError::UnsupportedType => String::from_str("This type is not supported yet"),
            TorrentError::InvalidPiecesLength => String::from_str(
                "The length of the pieces must be dividable by 20",
            ),
            TorrentError::Other(message) => message.clone(),
        }
    }
}

} // verus!
