//! The export assembler: the descriptor with its hashes split and its files
//! ranged, everything else as it was read.

use crate::error::TorrentError;
use crate::model::{
    Info, InfoView, JsonTorrent, JsonTorrentView, Outfo, OutfoView, RangedFile, RangedFileView,
    Torrent, TorrentView,
};
use crate::pieces::{piece_entries, split_pieces, HASH_LENGTH};
use crate::ranges::{can_map, map_files, mappable, ranged_files};
use vstd::prelude::*;

verus! {

/// The exported form of an info block whose files have the ranges `files`.
pub open spec fn assembled(info: InfoView, files: Option<Seq<RangedFileView>>) -> OutfoView {
    OutfoView {
        name: info.name,
        pieces: piece_entries(info.pieces),
        piece_length: info.piece_length,
        md5sum: info.md5sum,
        length: info.length,
        files: files,
        private: info.private,
        path: info.path,
        root_hash: info.root_hash,
    }
}

/// The exported form of an info block: the files of a multi-file torrent
/// with their ranges, no files where the torrent has a single file.
pub open spec fn export_info(info: InfoView) -> OutfoView {
    assembled(
        info,
        match info.files {
            Some(files) => Some(ranged_files(files, info.piece_length)),
            None => None,
        },
    )
}

/// The exported form of a descriptor.
pub open spec fn export(torrent: TorrentView) -> JsonTorrentView {
    JsonTorrentView {
        info: export_info(torrent.info),
        announce: torrent.announce,
        nodes: torrent.nodes,
        encoding: torrent.encoding,
        httpseeds: torrent.httpseeds,
        announce_list: torrent.announce_list,
        creation_date: torrent.creation_date,
        comment: torrent.comment,
        created_by: torrent.created_by,
    }
}

/// Whether an info block can be exported: it has a whole number of hashes
/// and, where it lists files, their ranges can be computed.
pub open spec fn exportable(info: InfoView) -> bool {
    info.pieces.len() % 20 == 0 ==> match info.files {
        Some(files) => mappable(files, info.piece_length),
        None => true,
    }
}

impl Outfo {
    /// Assembles the exported info block from the block as it was read and
    /// the ranges of its files: the hashes are split, the ranges are taken
    /// as given, every other field is copied.
    pub fn new(i: &Info, files: Option<Vec<RangedFile>>) -> (made: Result<Outfo, TorrentError>)
        ensures
            match made {
                Ok(outfo) => i.pieces@.len() % 20 == 0 && outfo@ == assembled(
                    i@,
                    files.deep_view(),
                ),
                Err(error) => i.pieces@.len() % 20 != 0 && error
                    == TorrentError::InvalidPiecesLength,
            },
    {
        match split_pieces(i.pieces.as_slice()) {
            Ok(pieces) => Ok(
                Outfo {
                    name: i.name.clone(),
                    pieces,
                    piece_length: i.piece_length,
                    md5sum: i.md5sum.clone(),
                    length: i.length,
                    files,
                    private: i.private,
                    path: i.path.clone(),
                    root_hash: i.root_hash.clone(),
                },
            ),
            Err(error) => Err(error),
        }
    }
}

impl Info {
    /// Whether `separate_files` accepts this info block.
    pub fn can_export(&self) -> (fits: bool)
        ensures
            fits == exportable(self@),
    {
        if self.pieces.len() % HASH_LENGTH != 0 {
            return true;
        }
        match &self.files {
            Some(files) => can_map(files, self.piece_length),
            None => true,
        }
    }
}

/// Exports an info block. The files of a multi-file torrent get their
/// ranges; for a single file no ranges are computed and none are exported.
/// A buffer of hashes whose length is not a multiple of 20 is rejected.
pub fn separate_files(info: &Info) -> (separated: Result<Outfo, TorrentError>)
    requires
        exportable(info@),
    ensures
        match separated {
            Ok(outfo) => info.pieces@.len() % 20 == 0 && outfo@ == export_info(info@),
            Err(error) => info.pieces@.len() % 20 != 0 && error
                == TorrentError::InvalidPiecesLength,
        },
        separated matches Ok(outfo) ==> (outfo.files.is_none() <==> info.files.is_none()),
{
    if info.pieces.len() % HASH_LENGTH != 0 {
        return Err(TorrentError::InvalidPiecesLength);
    }
    let files = match &info.files {
        Some(files) => Some(map_files(files, info.piece_length)),
        None => None,
    };
    Outfo::new(info, files)
}

impl JsonTorrent {
    /// Exports a descriptor: the info block as `separate_files` exports it,
    /// every other field as it is.
    pub fn new(t: Torrent) -> (made: Result<JsonTorrent, TorrentError>)
        requires
            exportable(t.info@),
        ensures
            match made {
                Ok(exported) => t.info.pieces@.len() % 20 == 0 && exported@ == export(t@),
                Err(error) => t.info.pieces@.len() % 20 != 0 && error
                    == TorrentError::InvalidPiecesLength,
            },
            made matches Ok(exported) ==> (exported.info.files.is_none()
                <==> t.info.files.is_none()),
    {
        match separate_files(&t.info) {
            Ok(info) => Ok(
                JsonTorrent {
                    info,
                    announce: t.announce,
                    nodes: t.nodes,
                    encoding: t.encoding,
                    httpseeds: t.httpseeds,
                    announce_list: t.announce_list,
                    creation_date: t.creation_date,
                    comment: t.comment,
                    created_by: t.created_by,
                },
            ),
            Err(error) => Err(error),
        }
    }
}

} // verus!
