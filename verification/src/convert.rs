//! From the bytes of a torrent file to its export.

use crate::bencode::{decoded, BencodeView};
use crate::decode::{decode, described};
use crate::error::TorrentError;
use crate::export::{export, exportable};
use crate::model::JsonTorrent;
use vstd::prelude::*;

verus! {

/// What `convert` returns for a buffer whose decoding came out as `parsed`.
pub open spec fn is_converted(
    parsed: Option<BencodeView>,
    converted: Option<Result<JsonTorrent, TorrentError>>,
) -> bool {
    match parsed {
        None => converted matches Some(Err(TorrentError::Other(_))),
        Some(value) => match described(value) {
            Err(error) => converted == Some(Err::<JsonTorrent, TorrentError>(error)),
            Ok(torrent) => if exportable(torrent.info) {
                converted matches Some(Ok(exported)) && exported@ == export(torrent)
            } else {
                converted.is_none()
            },
        },
    }
}

/// Decodes a descriptor and exports it. An error of the decoder comes back
/// as it is. `None` is for a descriptor that lists files whose ranges cannot
/// be computed: its piece length is not positive, one of its files has a
/// negative length, or the lengths together go beyond 64 bits.
pub fn convert(bytes: &[u8]) -> (converted: Option<Result<JsonTorrent, TorrentError>>)
    ensures
        is_converted(decoded(bytes@), converted),
{
    match decode(bytes) {
        Ok(torrent) => {
            if torrent.info.can_export() {
                Some(JsonTorrent::new(torrent))
            } else {
                None
            }
        },
        Err(error) => Some(Err(error)),
    }
}

} // verus!
