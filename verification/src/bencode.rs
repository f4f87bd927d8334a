//! Bencoded values: the four shapes of the encoding, their mathematical
//! model, and the call into the decoder that produces them from bytes.

use crate::error::TorrentError;
use serde_bencode::value::Value;
use vstd::prelude::*;

verus! {

/// The mathematical model of a bencoded value. A dictionary is a map from
/// keys to values: the order in which its entries were written plays no part.
pub enum BencodeView {
    Bytes(Seq<u8>),
    Int(int),
    List(Seq<BencodeView>),
    Dict(Map<Seq<u8>, BencodeView>),
}

/// A bencoded value. A dictionary is held as a list of entries; where a key
/// occurs more than once, the first entry with that key is the one that counts.
#[derive(Debug, PartialEq, Eq)]
pub enum Bencode {
    Bytes(Vec<u8>),
    Int(i64),
    List(Vec<Bencode>),
    Dict(Vec<(Vec<u8>, Bencode)>),
}

/// The position of the first entry at or after `from` whose key is `key`.
pub open spec fn first_entry(
    entries: Seq<(Vec<u8>, Bencode)>,
    key: Seq<u8>,
    from: int,
) -> Option<int>
    decreases entries.len() - from,
{
    if from < 0 || from >= entries.len() {
        None
    } else if entries[from].0@ == key {
        Some(from)
    } else {
        first_entry(entries, key, from + 1)
    }
}

impl View for Bencode {
    type V = BencodeView;

    open spec fn view(&self) -> BencodeView
        decreases self,
    {
        match self {
            Bencode::Bytes(bytes) => BencodeView::Bytes(bytes@),
            Bencode::Int(i) => BencodeView::Int(*i as int),
            Bencode::List(items) => BencodeView::List(
                Seq::new(
                    items@.len(),
                    |i: int|
                        if 0 <= i < items@.len() {
                            items@[i].view()
                        } else {
                            BencodeView::Int(0)
                        },
                ),
            ),
            Bencode::Dict(entries) => BencodeView::Dict(
                Map::new(
                    |key: Seq<u8>| first_entry(entries@, key, 0).is_some(),
                    |key: Seq<u8>|
                        {
                            let at = first_entry(entries@, key, 0).unwrap_or(0);
                            if 0 <= at < entries@.len() {
                                entries@[at].1.view()
                            } else {
                                BencodeView::Int(0)
                            }
                        },
                ),
            ),
        }
    }
}

/// Whether two byte strings are the same.
pub fn same_bytes(a: &[u8], b: &[u8]) -> (same: bool)
    ensures
        same == (a@ == b@),
{
    if a.len() != b.len() {
        return false;
    }
    let mut i: usize = 0;
    while i < a.len()
        invariant
            a@.len() == b@.len(),
            0 <= i <= a@.len(),
            a@.subrange(0, i as int) == b@.subrange(0, i as int),
        decreases a@.len() - i,
    {
        if a[i] != b[i] {
            return false;
        }
        i += 1;
    }
    proof {
        assert(a@ == a@.subrange(0, a@.len() as int));
        assert(b@ == b@.subrange(0, b@.len() as int));
    }
    true
}

/// The model of a dictionary that is held as these entries.
pub open spec fn dict_view(entries: Vec<(Vec<u8>, Bencode)>) -> Map<Seq<u8>, BencodeView> {
    Bencode::Dict(entries)@->Dict_0
}

/// The model of a list that is held as these items.
pub open spec fn list_view(items: Vec<Bencode>) -> Seq<BencodeView> {
    Bencode::List(items)@->List_0
}

/// The value that a dictionary's entries hold under `key`, if any.
pub fn lookup<'a>(entries: &'a Vec<(Vec<u8>, Bencode)>, key: &[u8]) -> (found: Option<&'a Bencode>)
    ensures
        found.is_some() == dict_view(*entries).contains_key(key@),
        found matches Some(value) ==> value@ == dict_view(*entries)[key@],
{
    let mut i: usize = 0;
    while i < entries.len()
        invariant
            0 <= i <= entries@.len(),
            first_entry(entries@, key@, 0) == first_entry(entries@, key@, i as int),
        decreases entries@.len() - i,
    {
        if same_bytes(entries[i].0.as_slice(), key) {
            return Some(&entries[i].1);
        }
        i += 1;
    }
    None
}

/// The decoder's own value type, carried from the decoder to `lift` unread.
#[verifier::external_type_specification]
#[verifier::external_body]
pub struct ExValue(serde_bencode::value::Value);

/// The decoder's error type, carried from the decoder to `failure_text` unread.
#[verifier::external_type_specification]
#[verifier::external_body]
pub struct ExDecodeFailure(serde_bencode::Error);

/// What `serde_bencode::from_bytes` makes of a buffer when asked for a
/// `serde_bencode::value::Value`: the value that the buffer encodes, or `None`
/// where the decoder rejects the buffer.
pub uninterp spec fn decoded(bytes: Seq<u8>) -> Option<BencodeView>;

/// What a `serde_bencode::value::Value` holds.
pub uninterp spec fn value_view(value: Value) -> BencodeView;

/// Calls `serde_bencode::from_bytes` for a `serde_bencode::value::Value`.
/// The decoder reads one value from the front of the buffer and looks at
/// nothing else than the buffer, so its outcome is a function of the bytes:
/// the contract gives that outcome the name `decoded`. The decoder descends
/// once for each level of nesting in the input.
#[verifier::external_body]
fn read_value(bytes: &[u8]) -> (outcome: Result<Value, serde_bencode::Error>)
    ensures
        match outcome {
            Ok(value) => decoded(bytes@) == Some(value_view(value)),
            Err(_) => decoded(bytes@).is_none(),
        },
{
    serde_bencode::from_bytes::<Value>(bytes)
}

/// Moves a `serde_bencode::value::Value` into a `Bencode`, variant by variant:
/// byte strings and integers as they are, the items of a list in their order,
/// the entries of a dictionary (a hash map, so each key once) in the order in
/// which the map hands them out. The model of the result does not depend on
/// that order.
#[verifier::external_body]
fn lift(value: Value) -> (lifted: Bencode)
    ensures
        lifted@ == value_view(value),
{
    match value {
        Value::Bytes(bytes) => Bencode::Bytes(bytes),
        Value::Int(i) => Bencode::Int(i),
        Value::List(items) => Bencode::List(items.into_iter().map(lift).collect()),
        Value::Dict(entries) => Bencode::Dict(
            entries.into_iter().map(|(key, item)| (key, lift(item))).collect(),
        ),
    }
}

/// Renders a `serde_bencode::Error` through its `Display` impl. Nothing is
/// claimed of the text.
#[verifier::external_body]
fn failure_text(failure: &serde_bencode::Error) -> (text: String) {
    failure.to_string()
}

/// What `parse` returns for a buffer whose decoding came out as `outcome`.
pub open spec fn parse_outcome(
    outcome: Option<BencodeView>,
    parsed: Result<Bencode, TorrentError>,
) -> bool {
    match outcome {
        Some(value) => parsed matches Ok(found) && found@ == value,
        None => parsed matches Err(TorrentError::Other(_)),
    }
}

/// Decodes the bencoded value at the front of `bytes`. A buffer that the
/// decoder rejects gives `TorrentError::Other` with the decoder's message.
pub fn parse(bytes: &[u8]) -> (parsed: Result<Bencode, TorrentError>)
    ensures
        parse_outcome(decoded(bytes@), parsed),
{
    match read_value(bytes) {
        Ok(value) => Ok(lift(value)),
        Err(failure) => Err(TorrentError::Other(failure_text(&failure))),
    }
}

} // verus!
