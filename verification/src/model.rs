//! The descriptor as it is read, the descriptor as it is exported, and the
//! mathematical model of each.

use vstd::prelude::*;

verus! {

/// A node for peer discovery: a host and a port.
#[derive(Debug, PartialEq, Eq)]
pub struct Node(pub String, pub i64);

/// The model of a `Node`.
pub struct NodeView {
    pub host: Seq<char>,
    pub port: int,
}

impl DeepView for Node {
    type V = NodeView;

    open spec fn deep_view(&self) -> NodeView {
        NodeView { host: self.0@, port: self.1 as int }
    }
}

impl View for Node {
    type V = NodeView;

    open spec fn view(&self) -> NodeView {
        self.deep_view()
    }
}

/// One file of a multi-file torrent.
#[derive(Debug, PartialEq, Eq)]
pub struct File {
    pub path: Vec<String>,
    pub length: i64,
    pub md5sum: Option<String>,
}

/// The model of a `File`.
pub struct FileView {
    pub path: Seq<Seq<char>>,
    pub length: int,
    pub md5sum: Option<Seq<char>>,
}

impl DeepView for File {
    type V = FileView;

    open spec fn deep_view(&self) -> FileView {
        FileView {
            path: self.path.deep_view(),
            length: self.length as int,
            md5sum: self.md5sum.deep_view(),
        }
    }
}

impl View for File {
    type V = FileView;

    open spec fn view(&self) -> FileView {
        self.deep_view()
    }
}

/// A place in the payload: a piece, counted from 1, and a byte within it.
#[derive(Debug, Clone, Copy, PartialEq, Eq)]
pub struct PiecePoint {
    pub piece: i64,
    pub byte_point: i64,
}

/// The model of a `PiecePoint`.
pub struct PiecePointView {
    pub piece: int,
    pub byte_point: int,
}

impl DeepView for PiecePoint {
    type V = PiecePointView;

    open spec fn deep_view(&self) -> PiecePointView {
        PiecePointView { piece: self.piece as int, byte_point: self.byte_point as int }
    }
}

impl View for PiecePoint {
    type V = PiecePointView;

    open spec fn view(&self) -> PiecePointView {
        self.deep_view()
    }
}

/// Where a file begins and where it ends.
#[derive(Debug, Clone, Copy, PartialEq, Eq)]
pub struct FilePieces {
    pub first_start: PiecePoint,
    pub last_end: PiecePoint,
}

/// The model of a `FilePieces`.
pub struct FilePiecesView {
    pub first_start: PiecePointView,
    pub last_end: PiecePointView,
}

impl DeepView for FilePieces {
    type V = FilePiecesView;

    open spec fn deep_view(&self) -> FilePiecesView {
        FilePiecesView {
            first_start: self.first_start.deep_view(),
            last_end: self.last_end.deep_view(),
        }
    }
}

impl View for FilePieces {
    type V = FilePiecesView;

    open spec fn view(&self) -> FilePiecesView {
        self.deep_view()
    }
}

/// A file together with the range of pieces that it occupies.
#[derive(Debug, PartialEq, Eq)]
pub struct RangedFile {
    pub path: Vec<String>,
    pub length: i64,
    pub md5sum: Option<String>,
    pub file_pieces: FilePieces,
}

/// The model of a `RangedFile`.
pub struct RangedFileView {
    pub path: Seq<Seq<char>>,
    pub length: int,
    pub md5sum: Option<Seq<char>>,
    pub file_pieces: FilePiecesView,
}

impl DeepView for RangedFile {
    type V = RangedFileView;

    open spec fn deep_view(&self) -> RangedFileView {
        RangedFileView {
            path: self.path.deep_view(),
            length: self.length as int,
            md5sum: self.md5sum.deep_view(),
            file_pieces: self.file_pieces.deep_view(),
        }
    }
}

impl View for RangedFile {
    type V = RangedFileView;

    open spec fn view(&self) -> RangedFileView {
        self.deep_view()
    }
}

/// The info block of a descriptor as it is read.
#[derive(Debug, PartialEq, Eq)]
pub struct Info {
    pub name: String,
    pub pieces: Vec<u8>,
    pub piece_length: i64,
    pub md5sum: Option<String>,
    pub length: Option<i64>,
    pub files: Option<Vec<File>>,
    pub private: Option<u8>,
    pub path: Option<Vec<String>>,
    pub root_hash: Option<String>,
}

/// The model of an `Info`.
pub struct InfoView {
    pub name: Seq<char>,
    pub pieces: Seq<u8>,
    pub piece_length: int,
    pub md5sum: Option<Seq<char>>,
    pub length: Option<int>,
    pub files: Option<Seq<FileView>>,
    pub private: Option<int>,
    pub path: Option<Seq<Seq<char>>>,
    pub root_hash: Option<Seq<char>>,
}

/// The model of an optional 64-bit number.
pub open spec fn number_view(number: Option<i64>) -> Option<int> {
    match number {
        Some(n) => Some(n as int),
        None => None,
    }
}

/// The model of an optional byte.
pub open spec fn byte_view(byte: Option<u8>) -> Option<int> {
    match byte {
        Some(b) => Some(b as int),
        None => None,
    }
}

impl DeepView for Info {
    type V = InfoView;

    open spec fn deep_view(&self) -> InfoView {
        InfoView {
            name: self.name@,
            pieces: self.pieces@,
            piece_length: self.piece_length as int,
            md5sum: self.md5sum.deep_view(),
            length: number_view(self.length),
            files: self.files.deep_view(),
            private: byte_view(self.private),
            path: self.path.deep_view(),
            root_hash: self.root_hash.deep_view(),
        }
    }
}

impl View for Info {
    type V = InfoView;

    open spec fn view(&self) -> InfoView {
        self.deep_view()
    }
}

/// The info block of a descriptor as it is exported: the hashes one by one,
/// and each file with its range.
#[derive(Debug, PartialEq, Eq)]
pub struct Outfo {
    pub name: String,
    pub pieces: Vec<String>,
    pub piece_length: i64,
    pub md5sum: Option<String>,
    pub length: Option<i64>,
    pub files: Option<Vec<RangedFile>>,
    pub private: Option<u8>,
    pub path: Option<Vec<String>>,
    pub root_hash: Option<String>,
}

/// The model of an `Outfo`.
pub struct OutfoView {
    pub name: Seq<char>,
    pub pieces: Seq<Seq<char>>,
    pub piece_length: int,
    pub md5sum: Option<Seq<char>>,
    pub length: Option<int>,
    pub files: Option<Seq<RangedFileView>>,
    pub private: Option<int>,
    pub path: Option<Seq<Seq<char>>>,
    pub root_hash: Option<Seq<char>>,
}

impl DeepView for Outfo {
    type V = OutfoView;

    open spec fn deep_view(&self) -> OutfoView {
        OutfoView {
            name: self.name@,
            pieces: self.pieces.deep_view(),
            piece_length: self.piece_length as int,
            md5sum: self.md5sum.deep_view(),
            length: number_view(self.length),
            files: self.files.deep_view(),
            private: byte_view(self.private),
            path: self.path.deep_view(),
            root_hash: self.root_hash.deep_view(),
        }
    }
}

impl View for Outfo {
    type V = OutfoView;

    open spec fn view(&self) -> OutfoView {
        self.deep_view()
    }
}

/// A descriptor as it is read.
#[derive(Debug, PartialEq, Eq)]
pub struct Torrent {
    pub info: Info,
    pub announce: Option<String>,
    pub nodes: Option<Vec<Node>>,
    pub encoding: Option<String>,
    pub httpseeds: Option<Vec<String>>,
    pub announce_list: Option<Vec<Vec<String>>>,
    pub creation_date: Option<i64>,
    pub comment: Option<String>,
    pub created_by: Option<String>,
}

/// The model of a `Torrent`.
pub struct TorrentView {
    pub info: InfoView,
    pub announce: Option<Seq<char>>,
    pub nodes: Option<Seq<NodeView>>,
    pub encoding: Option<Seq<char>>,
    pub httpseeds: Option<Seq<Seq<char>>>,
    pub announce_list: Option<Seq<Seq<Seq<char>>>>,
    pub creation_date: Option<int>,
    pub comment: Option<Seq<char>>,
    pub created_by: Option<Seq<char>>,
}

impl DeepView for Torrent {
    type V = TorrentView;

    open spec fn deep_view(&self) -> TorrentView {
        TorrentView {
            info: self.info.deep_view(),
            announce: self.announce.deep_view(),
            nodes: self.nodes.deep_view(),
            encoding: self.encoding.deep_view(),
            httpseeds: self.httpseeds.deep_view(),
            announce_list: self.announce_list.deep_view(),
            creation_date: number_view(self.creation_date),
            comment: self.comment.deep_view(),
            created_by: self.created_by.deep_view(),
        }
    }
}

impl View for Torrent {
    type V = TorrentView;

    open spec fn view(&self) -> TorrentView {
        self.deep_view()
    }
}

/// A descriptor as it is exported.
#[derive(Debug, PartialEq, Eq)]
pub struct JsonTorrent {
    pub info: Outfo,
    pub announce: Option<String>,
    pub nodes: Option<Vec<Node>>,
    pub encoding: Option<String>,
    pub httpseeds: Option<Vec<String>>,
    pub announce_list: Option<Vec<Vec<String>>>,
    pub creation_date: Option<i64>,
    pub comment: Option<String>,
    pub created_by: Option<String>,
}

/// The model of a `JsonTorrent`.
pub struct JsonTorrentView {
    pub info: OutfoView,
    pub announce: Option<Seq<char>>,
    pub nodes: Option<Seq<NodeView>>,
    pub encoding: Option<Seq<char>>,
    pub httpseeds: Option<Seq<Seq<char>>>,
    pub announce_list: Option<Seq<Seq<Seq<char>>>>,
    pub creation_date: Option<int>,
    pub comment: Option<Seq<char>>,
    pub created_by: Option<Seq<char>>,
}

impl DeepView for JsonTorrent {
    type V = JsonTorrentView;

    open spec fn deep_view(&self) -> JsonTorrentView {
        JsonTorrentView {
            info: self.info.deep_view(),
            announce: self.announce.deep_view(),
            nodes: self.nodes.deep_view(),
            encoding: self.encoding.deep_view(),
            httpseeds: self.httpseeds.deep_view(),
            announce_list: self.announce_list.deep_view(),
            creation_date: number_view(self.creation_date),
            comment: self.comment.deep_view(),
            created_by: self.created_by.deep_view(),
        }
    }
}

impl View for JsonTorrent {
    type V = JsonTorrentView;

    open spec fn view(&self) -> JsonTorrentView {
        self.deep_view()
    }
}

} // verus!
