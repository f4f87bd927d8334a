//! The piece splitter: one labelled text entry for each 20-byte hash.

use crate::error::TorrentError;
use crate::text::{
    decimal, decimal_value, digit_of, is_digit, lemma_decimal_reads_back,
    lemma_decimal_value_grows, push_decimal,
};
use vstd::prelude::*;
use vstd::slice::*;
use vstd::string::*;

verus! {

/// The number of bytes in one piece hash.
pub const HASH_LENGTH: usize = 20;

/// What `base64::encode` returns for a byte string: its base64 text in the
/// standard alphabet, with padding.
pub uninterp spec fn base64_text(bytes: Seq<u8>) -> Seq<char>;

/// What `base64::decode` returns for a text: the bytes of which the text is
/// the base64 form, or `None` where the text is not the base64 form of any.
pub uninterp spec fn base64_bytes(text: Seq<char>) -> Option<Seq<u8>>;

/// Calls `base64::encode`. The call computes the text from the bytes alone;
/// the contract gives it the name `base64_text`, and says that the crate's
/// decoder, under its name `base64_bytes`, reads the text back as the bytes.
/// The call fails where the length of the text would not fit in `usize`, so
/// such inputs are left out.
#[verifier::external_body]
fn encode_base64(bytes: &[u8]) -> (text: String)
    requires
        bytes@.len() / 3 < usize::MAX / 4,
    ensures
        text@ == base64_text(bytes@),
        base64_bytes(text@) == Some(bytes@),
{
    base64::encode(bytes)
}

/// Calls `base64::decode` and drops the error's details. The call computes
/// its outcome from the text alone; the contract gives it the name
/// `base64_bytes`. The call fails only on a text of more than
/// `usize::MAX - 7` bytes, and no `str` is that long.
#[verifier::external_body]
fn decode_base64(text: &str) -> (bytes: Option<Vec<u8>>)
    ensures
        match bytes {
            Some(found) => base64_bytes(text@) == Some(found@),
            None => base64_bytes(text@).is_none(),
        },
{
    base64::decode(text).ok()
}

/// The hash of the piece at position `i` (from 0) in a buffer of hashes.
pub open spec fn hash_at(pieces: Seq<u8>, i: int) -> Seq<u8> {
    pieces.subrange(20 * i, 20 * i + 20)
}

/// The entry for the piece with number `index` (from 1): the number in
/// decimal, a colon and a space, and the hash in base64.
pub open spec fn piece_entry(index: nat, hash: Seq<u8>) -> Seq<char> {
    decimal(index) + ": "@ + base64_text(hash)
}

/// The entries for a buffer of hashes, in the order of the hashes.
pub open spec fn piece_entries(pieces: Seq<u8>) -> Seq<Seq<char>> {
    Seq::new((pieces.len() / 20) as nat, |i: int| piece_entry((i + 1) as nat, hash_at(pieces, i)))
}

/// The position at which the run of digits that holds position `from` ends.
pub open spec fn label_end(entry: Seq<char>, from: int) -> int
    decreases entry.len() - from,
{
    if 0 <= from < entry.len() && is_digit(entry[from]) {
        label_end(entry, from + 1)
    } else {
        from
    }
}

/// An entry read back: the number that its label writes and the hash that
/// its text encodes. The label is a run of digits at the front that does not
/// begin with `0` and writes a number that fits in `usize`; a colon and a
/// space follow it; the rest is the hash in base64.
pub open spec fn entry_parts(entry: Seq<char>) -> Option<(nat, Seq<u8>)> {
    let end = label_end(entry, 0);
    let index = decimal_value(entry.subrange(0, end));
    if 0 < end && end + 2 <= entry.len() && entry[0] != '0' && entry[end] == ':' && entry[end + 1]
        == ' ' && index <= usize::MAX {
        match base64_bytes(entry.subrange(end + 2, entry.len() as int)) {
            Some(hash) => Some((index, hash)),
            None => None,
        }
    } else {
        None
    }
}

/// The run of digits at the front of an entry ends where its first character
/// that is no digit stands.
proof fn lemma_label_ends(entry: Seq<char>, from: int, end: int)
    requires
        0 <= from <= end <= entry.len(),
        forall|k: int| from <= k < end ==> is_digit(#[trigger] entry[k]),
        end < entry.len() ==> !is_digit(entry[end]),
    ensures
        label_end(entry, from) == end,
    decreases end - from,
{
    if from < end {
        lemma_label_ends(entry, from + 1, end);
    }
}

/// From any position on, a run of digits ends within the entry, holds only
/// digits, and is followed by no digit.
proof fn lemma_label_stops(entry: Seq<char>, from: int)
    requires
        0 <= from <= entry.len(),
    ensures
        from <= label_end(entry, from) <= entry.len(),
        forall|k: int| from <= k < label_end(entry, from) ==> is_digit(#[trigger] entry[k]),
        label_end(entry, from) < entry.len() ==> !is_digit(entry[label_end(entry, from)]),
    decreases entry.len() - from,
{
    if from < entry.len() && is_digit(entry[from]) {
        lemma_label_stops(entry, from + 1);
    }
}

/// The entry for a piece reads back as the number and the hash of the piece,
/// where the decoder reads the hash's text back as the hash.
pub proof fn lemma_entry_reads_back(index: nat, hash: Seq<u8>)
    requires
        0 < index <= usize::MAX,
        base64_bytes(base64_text(hash)) == Some(hash),
    ensures
        entry_parts(piece_entry(index, hash)) == Some((index, hash)),
{
    reveal_strlit(": ");
    lemma_decimal_reads_back(index);
    let label = decimal(index);
    let entry = piece_entry(index, hash);
    let end = label.len() as int;
    assert forall|k: int| 0 <= k < end implies is_digit(#[trigger] entry[k]) by {
        assert(entry[k] == label[k]);
    }
    lemma_label_ends(entry, 0, end);
    assert(entry.subrange(0, end) =~= label);
    assert(entry.subrange(end + 2, entry.len() as int) =~= base64_text(hash));
}

/// Reads an entry back into the number of its piece and the piece's hash.
pub fn read_entry(entry: &str) -> (parts: Option<(usize, Vec<u8>)>)
    ensures
        match parts {
            Some((index, hash)) => entry_parts(entry@) == Some((index as nat, hash@)),
            None => entry_parts(entry@).is_none(),
        },
{
    let total = entry.unicode_len();
    if total == 0 || entry.get_char(0) == '0' {
        return None;
    }
    let mut end: usize = 0;
    let mut index: usize = 0;
    let mut in_label = true;
    while in_label && end < total
        invariant
            total == entry@.len(),
            0 <= end <= total,
            entry@[0] != '0',
            forall|k: int| 0 <= k < end ==> is_digit(#[trigger] entry@[k]),
            index == decimal_value(entry@.subrange(0, end as int)),
            !in_label ==> end < total && !is_digit(entry@[end as int]),
        decreases total - end + (if in_label { 1int } else { 0int }),
    {
        match digit_of(entry.get_char(end)) {
            Some(digit) => {
                proof {
                    assert(entry@.subrange(0, end + 1).drop_last() =~= entry@.subrange(
                        0,
                        end as int,
                    ));
                    if index * 10 + digit > usize::MAX {
                        let stop = label_end(entry@, end + 1);
                        lemma_label_stops(entry@, end + 1);
                        lemma_label_ends(entry@, 0, stop);
                        lemma_decimal_value_grows(entry@, end + 1, stop);
                    }
                }
                if index > (usize::MAX - digit) / 10 {
                    return None;
                }
                index = index * 10 + digit;
                end += 1;
            },
            None => {
                in_label = false;
            },
        }
    }
    proof {
        lemma_label_ends(entry@, 0, end as int);
    }
    if end == 0 || total - end < 2 || entry.get_char(end) != ':' || entry.get_char(end + 1)
        != ' ' {
        return None;
    }
    match decode_base64(entry.substring_char(end + 2, total)) {
        Some(hash) => Some((index, hash)),
        None => None,
    }
}

/// Splits a buffer of piece hashes into one entry per hash. Entry `i` (from 1)
/// is `"<i>: <hash>"`, with the bytes `[20(i-1), 20i)` of the buffer in base64.
/// A buffer whose length is not a multiple of 20 is rejected as a whole.
pub fn split_pieces(pieces: &[u8]) -> (split: Result<Vec<String>, TorrentError>)
    ensures
        match split {
            Ok(entries) => pieces@.len() % 20 == 0 && entries.deep_view() == piece_entries(pieces@),
            Err(error) => pieces@.len() % 20 != 0 && error == TorrentError::InvalidPiecesLength,
        },
        split matches Ok(entries) ==> entries@.len() == pieces@.len() / 20 && forall|i: int|
            0 <= i < entries@.len() ==> entry_parts((#[trigger] entries@[i])@) == Some(
                ((i + 1) as nat, hash_at(pieces@, i)),
            ),
{
    if pieces.len() % HASH_LENGTH != 0 {
        return Err(TorrentError::InvalidPiecesLength);
    }
    let count: usize = pieces.len() / HASH_LENGTH;
    let mut entries: Vec<String> = Vec::new();
    let mut k: usize = 0;
    while k < count
        invariant
            pieces@.len() == 20 * count,
            pieces@.len() <= usize::MAX,
            0 <= k <= count,
            entries@.len() == k,
            forall|i: int|
                0 <= i < k ==> (#[trigger] entries@[i])@ == piece_entry(
                    (i + 1) as nat,
                    hash_at(pieces@, i),
                ),
            forall|i: int|
                0 <= i < k ==> entry_parts((#[trigger] entries@[i])@) == Some(
                    ((i + 1) as nat, hash_at(pieces@, i)),
                ),
        decreases count - k,
    {
        let hash = slice_subrange(pieces, HASH_LENGTH * k, HASH_LENGTH * k + HASH_LENGTH);
        let mut entry = String::new();
        push_decimal(&mut entry, k + 1);
        entry.append(": ");
        let encoded = encode_base64(hash);
        entry.append(encoded.as_str());
        proof {
            lemma_entry_reads_back((k + 1) as nat, hash_at(pieces@, k as int));
        }
        entries.push(entry);
        k += 1;
    }
    Ok(entries)
}

} // verus!
