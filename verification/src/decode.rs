//! The decoder: from a bencoded value to the descriptor that it describes.

use crate::bencode::{decoded, dict_view, list_view, lookup, parse, Bencode, BencodeView};
use crate::error::TorrentError;
use crate::model::{
    byte_view, number_view, File, FileView, Info, InfoView, Node, NodeView, Torrent, TorrentView,
};
use crate::pieces::HASH_LENGTH;
use crate::text::{read_text, text_of};
use vstd::prelude::*;
use vstd::string::*;
use vstd::utf8::*;

verus! {

/// The key under which a dictionary holds the field called `name`.
pub open spec fn key(name: Seq<char>) -> Seq<u8> {
    encode_utf8(name)
}

/// A value read as a text: a byte string that is valid UTF-8.
pub open spec fn as_text(value: BencodeView) -> Option<Seq<char>> {
    match value {
        BencodeView::Bytes(bytes) => text_of(bytes),
        _ => None,
    }
}

/// A value read as a number: an integer.
pub open spec fn as_number(value: BencodeView) -> Option<int> {
    match value {
        BencodeView::Int(i) => Some(i),
        _ => None,
    }
}

/// A value read as a list whose items are all read by `read`.
pub open spec fn as_list<T>(
    value: BencodeView,
    read: spec_fn(BencodeView) -> Option<T>,
) -> Option<Seq<T>> {
    match value {
        BencodeView::List(items) => if forall|i: int|
            0 <= i < items.len() ==> (#[trigger] read(items[i])).is_some() {
            Some(Seq::new(items.len(), |i: int| read(items[i]).unwrap()))
        } else {
            None
        },
        _ => None,
    }
}

/// A value read as a list of texts.
pub open spec fn as_texts(value: BencodeView) -> Option<Seq<Seq<char>>> {
    as_list(value, |item: BencodeView| as_text(item))
}

/// A field that may be absent: nothing where the dictionary lacks the key,
/// the field as `read` reads it where it has the key. The outer `None` is
/// for a field that is there and that `read` does not accept.
pub open spec fn optional<T>(
    dict: Map<Seq<u8>, BencodeView>,
    name: Seq<char>,
    read: spec_fn(BencodeView) -> Option<T>,
) -> Option<Option<T>> {
    if dict.contains_key(key(name)) {
        match read(dict[key(name)]) {
            Some(field) => Some(Some(field)),
            None => None,
        }
    } else {
        Some(None)
    }
}

/// A field that must be there and that `read` must accept.
pub open spec fn required<T>(
    dict: Map<Seq<u8>, BencodeView>,
    name: Seq<char>,
    read: spec_fn(BencodeView) -> Option<T>,
) -> Option<T> {
    if dict.contains_key(key(name)) {
        read(dict[key(name)])
    } else {
        None
    }
}

/// The optional text field called `name`.
pub open spec fn optional_text_in(dict: Map<Seq<u8>, BencodeView>, name: Seq<char>) -> Option<
    Option<Seq<char>>,
> {
    optional(dict, name, |value: BencodeView| as_text(value))
}

/// The optional number field called `name`.
pub open spec fn optional_number_in(dict: Map<Seq<u8>, BencodeView>, name: Seq<char>) -> Option<
    Option<int>,
> {
    optional(dict, name, |value: BencodeView| as_number(value))
}

/// The optional field called `name` that holds a list of texts.
pub open spec fn optional_texts_in(dict: Map<Seq<u8>, BencodeView>, name: Seq<char>) -> Option<
    Option<Seq<Seq<char>>>,
> {
    optional(dict, name, |value: BencodeView| as_texts(value))
}

/// A value read as a byte string.
pub open spec fn as_bytes(value: BencodeView) -> Option<Seq<u8>> {
    match value {
        BencodeView::Bytes(bytes) => Some(bytes),
        _ => None,
    }
}

/// A value read as a byte: an integer from 0 to 255.
pub open spec fn as_byte(value: BencodeView) -> Option<int> {
    match value {
        BencodeView::Int(i) => if 0 <= i <= 255 {
            Some(i)
        } else {
            None
        },
        _ => None,
    }
}

/// A value read as a list of lists of texts.
pub open spec fn as_text_table(value: BencodeView) -> Option<Seq<Seq<Seq<char>>>> {
    as_list(value, |item: BencodeView| as_texts(item))
}

/// A value read as a node: a list of a host, which is a text, and a port,
/// which is a number, and nothing more.
pub open spec fn as_node(value: BencodeView) -> Option<NodeView> {
    match value {
        BencodeView::List(items) => if items.len() == 2 && as_text(items[0]).is_some()
            && as_number(items[1]).is_some() {
            Some(NodeView { host: as_text(items[0]).unwrap(), port: as_number(items[1]).unwrap() })
        } else {
            None
        },
        _ => None,
    }
}

/// A value read as a list of nodes.
pub open spec fn as_nodes(value: BencodeView) -> Option<Seq<NodeView>> {
    as_list(value, |item: BencodeView| as_node(item))
}

/// A value read as a file: a dictionary with a `path`, a `length` and
/// perhaps an `md5sum`. Other keys are passed over.
pub open spec fn as_file(value: BencodeView) -> Option<FileView> {
    match value {
        BencodeView::Dict(dict) => {
            let path = required(dict, "path"@, |v: BencodeView| as_texts(v));
            let length = required(dict, "length"@, |v: BencodeView| as_number(v));
            let md5sum = optional_text_in(dict, "md5sum"@);
            if path.is_some() && length.is_some() && md5sum.is_some() {
                Some(
                    FileView {
                        path: path.unwrap(),
                        length: length.unwrap(),
                        md5sum: md5sum.unwrap(),
                    },
                )
            } else {
                None
            }
        },
        _ => None,
    }
}

/// A value read as a list of files.
pub open spec fn as_files(value: BencodeView) -> Option<Seq<FileView>> {
    as_list(value, |item: BencodeView| as_file(item))
}

/// A value read as an info block: a dictionary with a `name`, the `pieces`
/// and a `piece length`, and perhaps an `md5sum`, a `length`, `files`, a
/// `private` flag, a `path` and a `root hash`. Other keys are passed over.
pub open spec fn as_info(value: BencodeView) -> Option<InfoView> {
    match value {
        BencodeView::Dict(dict) => {
            let name = required(dict, "name"@, |v: BencodeView| as_text(v));
            let pieces = required(dict, "pieces"@, |v: BencodeView| as_bytes(v));
            let piece_length = required(dict, "piece length"@, |v: BencodeView| as_number(v));
            let md5sum = optional_text_in(dict, "md5sum"@);
            let length = optional_number_in(dict, "length"@);
            let files = optional(dict, "files"@, |v: BencodeView| as_files(v));
            let private = optional(dict, "private"@, |v: BencodeView| as_byte(v));
            let path = optional_texts_in(dict, "path"@);
            let root_hash = optional_text_in(dict, "root hash"@);
            if name.is_some() && pieces.is_some() && piece_length.is_some() && md5sum.is_some()
                && length.is_some() && files.is_some() && private.is_some() && path.is_some()
                && root_hash.is_some() {
                Some(
                    InfoView {
                        name: name.unwrap(),
                        pieces: pieces.unwrap(),
                        piece_length: piece_length.unwrap(),
                        md5sum: md5sum.unwrap(),
                        length: length.unwrap(),
                        files: files.unwrap(),
                        private: private.unwrap(),
                        path: path.unwrap(),
                        root_hash: root_hash.unwrap(),
                    },
                )
            } else {
                None
            }
        },
        _ => None,
    }
}

/// A value read as a descriptor: a dictionary with an `info` block and
/// perhaps an `announce`, `nodes`, an `encoding`, `httpseeds`, an
/// `announce-list`, a `creation date`, a `comment` and a `created by`.
/// Other keys are passed over.
pub open spec fn as_torrent(value: BencodeView) -> Option<TorrentView> {
    match value {
        BencodeView::Dict(dict) => {
            let info = required(dict, "info"@, |v: BencodeView| as_info(v));
            let announce = optional_text_in(dict, "announce"@);
            let nodes = optional(dict, "nodes"@, |v: BencodeView| as_nodes(v));
            let encoding = optional_text_in(dict, "encoding"@);
            let httpseeds = optional_texts_in(dict, "httpseeds"@);
            let announce_list = optional(dict, "announce-list"@, |v: BencodeView| as_text_table(v));
            let creation_date = optional_number_in(dict, "creation date"@);
            let comment = optional_text_in(dict, "comment"@);
            let created_by = optional_text_in(dict, "created by"@);
            if info.is_some() && announce.is_some() && nodes.is_some() && encoding.is_some()
                && httpseeds.is_some() && announce_list.is_some() && creation_date.is_some()
                && comment.is_some() && created_by.is_some() {
                Some(
                    TorrentView {
                        info: info.unwrap(),
                        announce: announce.unwrap(),
                        nodes: nodes.unwrap(),
                        encoding: encoding.unwrap(),
                        httpseeds: httpseeds.unwrap(),
                        announce_list: announce_list.unwrap(),
                        creation_date: creation_date.unwrap(),
                        comment: comment.unwrap(),
                        created_by: created_by.unwrap(),
                    },
                )
            } else {
                None
            }
        },
        _ => None,
    }
}

/// What becomes of a decoded value: the descriptor that it describes;
/// `UnsupportedType` where it does not have the shape of a descriptor;
/// `InvalidPiecesLength` where it has the shape and its `pieces` are not a
/// whole number of 20-byte hashes.
pub open spec fn described(value: BencodeView) -> Result<TorrentView, TorrentError> {
    match as_torrent(value) {
        Some(torrent) => if torrent.info.pieces.len() % 20 == 0 {
            Ok(torrent)
        } else {
            Err(TorrentError::InvalidPiecesLength)
        },
        None => Err(TorrentError::UnsupportedType),
    }
}

/// Whether `outcome` is what `described` asks for.
pub open spec fn is_described(value: BencodeView, outcome: Result<Torrent, TorrentError>) -> bool {
    match outcome {
        Ok(torrent) => described(value) == Ok::<TorrentView, TorrentError>(torrent@),
        Err(error) => described(value) == Err::<TorrentView, TorrentError>(error),
    }
}

/// A list all of whose items are read is read as the list of what they are
/// read as.
proof fn lemma_list_read<T>(
    items: Seq<BencodeView>,
    read: spec_fn(BencodeView) -> Option<T>,
    found: Seq<T>,
)
    requires
        found.len() == items.len(),
        forall|k: int| 0 <= k < items.len() ==> read(items[k]) == Some(#[trigger] found[k]),
    ensures
        as_list(BencodeView::List(items), read) == Some(found),
{
    assert forall|k: int| 0 <= k < items.len() implies (#[trigger] read(items[k])).is_some() by {
        assert(read(items[k]) == Some(found[k]));
    }
}

/// A list with an item that is not read is not read.
proof fn lemma_list_not_read<T>(
    items: Seq<BencodeView>,
    read: spec_fn(BencodeView) -> Option<T>,
    k: int,
)
    requires
        0 <= k < items.len(),
        read(items[k]).is_none(),
    ensures
        as_list(BencodeView::List(items), read).is_none(),
{
}

/// The value that a dictionary's entries hold for the field called `name`.
fn field<'a>(entries: &'a Vec<(Vec<u8>, Bencode)>, name: &str) -> (found: Option<&'a Bencode>)
    ensures
        found.is_some() == dict_view(*entries).contains_key(key(name@)),
        found matches Some(value) ==> value@ == dict_view(*entries)[key(name@)],
{
    lookup(entries, name.as_bytes())
}

/// Reads a value as a text.
pub fn text_value(value: &Bencode) -> (text: Option<String>)
    ensures
        text.deep_view() == as_text(value@),
{
    match value {
        Bencode::Bytes(bytes) => read_text(bytes.as_slice()),
        _ => None,
    }
}

/// Reads a value as a number.
pub fn number_value(value: &Bencode) -> (number: Option<i64>)
    ensures
        number_view(number) == as_number(value@),
{
    match value {
        Bencode::Int(i) => Some(*i),
        _ => None,
    }
}

/// Reads a value as a byte.
pub fn byte_value(value: &Bencode) -> (byte: Option<u8>)
    ensures
        byte_view(byte) == as_byte(value@),
{
    match value {
        Bencode::Int(i) => if 0 <= *i && *i <= 255 {
            Some(*i as u8)
        } else {
            None
        },
        _ => None,
    }
}

/// Reads a value as a byte string.
pub fn bytes_value(value: &Bencode) -> (bytes: Option<Vec<u8>>)
    ensures
        match bytes {
            Some(found) => as_bytes(value@) == Some(found@),
            None => as_bytes(value@).is_none(),
        },
{
    match value {
        Bencode::Bytes(bytes) => Some(bytes.clone()),
        _ => None,
    }
}

/// Reads a value as a list of texts.
pub fn texts_value(value: &Bencode) -> (texts: Option<Vec<String>>)
    ensures
        texts.deep_view() == as_texts(value@),
{
    match value {
        Bencode::List(items) => {
            let mut texts: Vec<String> = Vec::new();
            let mut i: usize = 0;
            while i < items.len()
                invariant
                    *value == Bencode::List(*items),
                    0 <= i <= items@.len(),
                    texts@.len() == i,
                    forall|k: int|
                        0 <= k < i ==> as_text(list_view(*items)[k]) == Some(
                            (#[trigger] texts@[k])@,
                        ),
                decreases items@.len() - i,
            {
                match text_value(&items[i]) {
                    Some(text) => {
                        texts.push(text);
                    },
                    None => {
                        proof {
                            lemma_list_not_read(
                                list_view(*items),
                                |item: BencodeView| as_text(item),
                                i as int,
                            );
                        }
                        return None;
                    },
                }
                i += 1;
            }
            proof {
                lemma_list_read(
                    list_view(*items),
                    |item: BencodeView| as_text(item),
                    texts.deep_view(),
                );
            }
            Some(texts)
        },
        _ => None,
    }
}

/// Reads a value as a list of lists of texts.
pub fn text_table_value(value: &Bencode) -> (table: Option<Vec<Vec<String>>>)
    ensures
        table.deep_view() == as_text_table(value@),
{
    match value {
        Bencode::List(items) => {
            let mut table: Vec<Vec<String>> = Vec::new();
            let mut i: usize = 0;
            while i < items.len()
                invariant
                    *value == Bencode::List(*items),
                    0 <= i <= items@.len(),
                    table@.len() == i,
                    forall|k: int|
                        0 <= k < i ==> as_texts(list_view(*items)[k]) == Some(
                            (#[trigger] table@[k]).deep_view(),
                        ),
                decreases items@.len() - i,
            {
                match texts_value(&items[i]) {
                    Some(texts) => {
                        table.push(texts);
                    },
                    None => {
                        proof {
                            lemma_list_not_read(
                                list_view(*items),
                                |item: BencodeView| as_texts(item),
                                i as int,
                            );
                        }
                        return None;
                    },
                }
                i += 1;
            }
            proof {
                lemma_list_read(
                    list_view(*items),
                    |item: BencodeView| as_texts(item),
                    table.deep_view(),
                );
            }
            Some(table)
        },
        _ => None,
    }
}

/// Reads a value as a node.
pub fn node_value(value: &Bencode) -> (node: Option<Node>)
    ensures
        node.deep_view() == as_node(value@),
{
    match value {
        Bencode::List(items) => {
            if items.len() != 2 {
                return None;
            }
            match (text_value(&items[0]), number_value(&items[1])) {
                (Some(host), Some(port)) => Some(Node(host, port)),
                _ => None,
            }
        },
        _ => None,
    }
}

/// Reads a value as a list of nodes.
pub fn nodes_value(value: &Bencode) -> (nodes: Option<Vec<Node>>)
    ensures
        nodes.deep_view() == as_nodes(value@),
{
    match value {
        Bencode::List(items) => {
            let mut nodes: Vec<Node> = Vec::new();
            let mut i: usize = 0;
            while i < items.len()
                invariant
                    *value == Bencode::List(*items),
                    0 <= i <= items@.len(),
                    nodes@.len() == i,
                    forall|k: int|
                        0 <= k < i ==> as_node(list_view(*items)[k]) == Some(
                            (#[trigger] nodes@[k]).deep_view(),
                        ),
                decreases items@.len() - i,
            {
                match node_value(&items[i]) {
                    Some(node) => {
                        nodes.push(node);
                    },
                    None => {
                        proof {
                            lemma_list_not_read(
                                list_view(*items),
                                |item: BencodeView| as_node(item),
                                i as int,
                            );
                        }
                        return None;
                    },
                }
                i += 1;
            }
            proof {
                lemma_list_read(
                    list_view(*items),
                    |item: BencodeView| as_node(item),
                    nodes.deep_view(),
                );
            }
            Some(nodes)
        },
        _ => None,
    }
}

/// Reads the optional text field called `name`.
fn optional_text(entries: &Vec<(Vec<u8>, Bencode)>, name: &str) -> (read: Option<Option<String>>)
    ensures
        read.deep_view() == optional_text_in(dict_view(*entries), name@),
{
    match field(entries, name) {
        Some(value) => match text_value(value) {
            Some(text) => Some(Some(text)),
            None => None,
        },
        None => Some(None),
    }
}

/// Reads the optional number field called `name`.
fn optional_number(entries: &Vec<(Vec<u8>, Bencode)>, name: &str) -> (read: Option<Option<i64>>)
    ensures
        match read {
            Some(number) => optional_number_in(dict_view(*entries), name@) == Some(
                number_view(number),
            ),
            None => optional_number_in(dict_view(*entries), name@).is_none(),
        },
{
    match field(entries, name) {
        Some(value) => match number_value(value) {
            Some(number) => Some(Some(number)),
            None => None,
        },
        None => Some(None),
    }
}

/// Reads the optional field called `name` that holds a list of texts.
fn optional_texts(entries: &Vec<(Vec<u8>, Bencode)>, name: &str) -> (read: Option<
    Option<Vec<String>>,
>)
    ensures
        read.deep_view() == optional_texts_in(dict_view(*entries), name@),
{
    match field(entries, name) {
        Some(value) => match texts_value(value) {
            Some(texts) => Some(Some(texts)),
            None => None,
        },
        None => Some(None),
    }
}

/// Reads a value as a file.
pub fn file_value(value: &Bencode) -> (file: Option<File>)
    ensures
        file.deep_view() == as_file(value@),
{
    match value {
        Bencode::Dict(entries) => {
            let path = match field(entries, "path") {
                Some(value) => match texts_value(value) {
                    Some(path) => path,
                    None => { return None; },
                },
                None => { return None; },
            };
            let length = match field(entries, "length") {
                Some(value) => match number_value(value) {
                    Some(length) => length,
                    None => { return None; },
                },
                None => { return None; },
            };
            let md5sum = match optional_text(entries, "md5sum") {
                Some(md5sum) => md5sum,
                None => { return None; },
            };
            Some(File { path, length, md5sum })
        },
        _ => None,
    }
}

/// Reads a value as a list of files.
pub fn files_value(value: &Bencode) -> (files: Option<Vec<File>>)
    ensures
        files.deep_view() == as_files(value@),
{
    match value {
        Bencode::List(items) => {
            let mut files: Vec<File> = Vec::new();
            let mut i: usize = 0;
            while i < items.len()
                invariant
                    *value == Bencode::List(*items),
                    0 <= i <= items@.len(),
                    files@.len() == i,
                    forall|k: int|
                        0 <= k < i ==> as_file(list_view(*items)[k]) == Some(
                            (#[trigger] files@[k]).deep_view(),
                        ),
                decreases items@.len() - i,
            {
                match file_value(&items[i]) {
                    Some(file) => {
                        files.push(file);
                    },
                    None => {
                        proof {
                            lemma_list_not_read(
                                list_view(*items),
                                |item: BencodeView| as_file(item),
                                i as int,
                            );
                        }
                        return None;
                    },
                }
                i += 1;
            }
            proof {
                lemma_list_read(
                    list_view(*items),
                    |item: BencodeView| as_file(item),
                    files.deep_view(),
                );
            }
            Some(files)
        },
        _ => None,
    }
}

/// Reads a value as an info block.
pub fn info_value(value: &Bencode) -> (info: Option<Info>)
    ensures
        info.deep_view() == as_info(value@),
{
    match value {
        Bencode::Dict(entries) => {
            let name = match field(entries, "name") {
                Some(value) => match text_value(value) {
                    Some(name) => name,
                    None => { return None; },
                },
                None => { return None; },
            };
            let pieces = match field(entries, "pieces") {
                Some(value) => match bytes_value(value) {
                    Some(pieces) => pieces,
                    None => { return None; },
                },
                None => { return None; },
            };
            let piece_length = match field(entries, "piece length") {
                Some(value) => match number_value(value) {
                    Some(piece_length) => piece_length,
                    None => { return None; },
                },
                None => { return None; },
            };
            let md5sum = match optional_text(entries, "md5sum") {
                Some(md5sum) => md5sum,
                None => { return None; },
            };
            let length = match optional_number(entries, "length") {
                Some(length) => length,
                None => { return None; },
            };
            let files = match field(entries, "files") {
                Some(value) => match files_value(value) {
                    Some(files) => Some(files),
                    None => { return None; },
                },
                None => None,
            };
            let private = match field(entries, "private") {
                Some(value) => match byte_value(value) {
                    Some(private) => Some(private),
                    None => { return None; },
                },
                None => None,
            };
            let path = match optional_texts(entries, "path") {
                Some(path) => path,
                None => { return None; },
            };
            let root_hash = match optional_text(entries, "root hash") {
                Some(root_hash) => root_hash,
                None => { return None; },
            };
            Some(
                Info {
                    name,
                    pieces,
                    piece_length,
                    md5sum,
                    length,
                    files,
                    private,
                    path,
                    root_hash,
                },
            )
        },
        _ => None,
    }
}

/// Reads a value as a descriptor.
pub fn torrent_value(value: &Bencode) -> (torrent: Option<Torrent>)
    ensures
        torrent.deep_view() == as_torrent(value@),
{
    match value {
        Bencode::Dict(entries) => {
            let info = match field(entries, "info") {
                Some(value) => match info_value(value) {
                    Some(info) => info,
                    None => { return None; },
                },
                None => { return None; },
            };
            let announce = match optional_text(entries, "announce") {
                Some(announce) => announce,
                None => { return None; },
            };
            let nodes = match field(entries, "nodes") {
                Some(value) => match nodes_value(value) {
                    Some(nodes) => Some(nodes),
                    None => { return None; },
                },
                None => None,
            };
            let encoding = match optional_text(entries, "encoding") {
                Some(encoding) => encoding,
                None => { return None; },
            };
            let httpseeds = match optional_texts(entries, "httpseeds") {
                Some(httpseeds) => httpseeds,
                None => { return None; },
            };
            let announce_list = match field(entries, "announce-list") {
                Some(value) => match text_table_value(value) {
                    Some(table) => Some(table),
                    None => { return None; },
                },
                None => None,
            };
            let creation_date = match optional_number(entries, "creation date") {
                Some(creation_date) => creation_date,
                None => { return None; },
            };
            let comment = match optional_text(entries, "comment") {
                Some(comment) => comment,
                None => { return None; },
            };
            let created_by = match optional_text(entries, "created by") {
                Some(created_by) => created_by,
                None => { return None; },
            };
            Some(
                Torrent {
                    info,
                    announce,
                    nodes,
                    encoding,
                    httpseeds,
                    announce_list,
                    creation_date,
                    comment,
                    created_by,
                },
            )
        },
        _ => None,
    }
}

/// Maps a decoded value onto a descriptor. A value that is not a dictionary,
/// that lacks a required field, or in which a field does not have the shape
/// that the descriptor asks for, gives `UnsupportedType`; a value of the
/// right shape whose `pieces` are not a whole number of 20-byte hashes gives
/// `InvalidPiecesLength`.
pub fn describe(value: &Bencode) -> (outcome: Result<Torrent, TorrentError>)
    ensures
        is_described(value@, outcome),
{
    match torrent_value(value) {
        Some(torrent) => if torrent.info.pieces.len() % HASH_LENGTH == 0 {
            Ok(torrent)
        } else {
            Err(TorrentError::InvalidPiecesLength)
        },
        None => Err(TorrentError::UnsupportedType),
    }
}

/// What `decode` returns for a buffer whose decoding came out as `parsed`.
pub open spec fn is_decoded(
    parsed: Option<BencodeView>,
    outcome: Result<Torrent, TorrentError>,
) -> bool {
    match parsed {
        Some(value) => is_described(value, outcome),
        None => outcome matches Err(TorrentError::Other(_)),
    }
}

/// Decodes a descriptor from its bencoded form. A buffer that is not
/// well-formed bencode gives `Other` with the decoder's message; a
/// well-formed one gives what `describe` makes of its value.
pub fn decode(bytes: &[u8]) -> (outcome: Result<Torrent, TorrentError>)
    ensures
        is_decoded(decoded(bytes@), outcome),
{
    match parse(bytes) {
        Ok(value) => describe(&value),
        Err(error) => Err(error),
    }
}

} // verus!
