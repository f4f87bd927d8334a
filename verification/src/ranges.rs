//! The file range mapper: where in the sequence of pieces each file of a
//! multi-file torrent begins and ends.

use crate::model::{
    File, FilePieces, FilePiecesView, FileView, PiecePoint, PiecePointView, RangedFile,
    RangedFileView,
};
use vstd::prelude::*;

verus! {

/// The number of bytes that the first `count` files take up together.
pub open spec fn cursor(files: Seq<FileView>, count: int) -> int
    decreases count,
{
    if count <= 0 {
        0
    } else {
        cursor(files, count - 1) + files[count - 1].length
    }
}

/// The point at which a file begins whose first byte is byte `offset` of the
/// payload (from 0): the piece that holds the byte, and the byte's place in
/// that piece, both counted from 1.
pub open spec fn start_point(offset: int, piece_length: int) -> PiecePointView {
    PiecePointView { piece: offset / piece_length + 1, byte_point: offset % piece_length + 1 }
}

/// The point at which a file ends that is followed by byte `offset` of the
/// payload: the piece, counted from 1, that holds byte `offset`, and the
/// number of bytes of that piece that lie before it. For a file that ends
/// where a piece ends this is the next piece with 0 bytes.
pub open spec fn end_point(offset: int, piece_length: int) -> PiecePointView {
    PiecePointView { piece: offset / piece_length + 1, byte_point: offset % piece_length }
}

/// File `i` of `files` with its range.
pub open spec fn ranged_file(files: Seq<FileView>, piece_length: int, i: int) -> RangedFileView {
    RangedFileView {
        path: files[i].path,
        length: files[i].length,
        md5sum: files[i].md5sum,
        file_pieces: FilePiecesView {
            first_start: start_point(cursor(files, i), piece_length),
            last_end: end_point(cursor(files, i + 1), piece_length),
        },
    }
}

/// The files with their ranges, in the order of the files.
pub open spec fn ranged_files(files: Seq<FileView>, piece_length: int) -> Seq<RangedFileView> {
    Seq::new(files.len(), |i: int| ranged_file(files, piece_length, i))
}

/// Whether ranges can be computed: the piece length is positive, no file has
/// a negative length, and the total length and the number of the piece after
/// the last byte both fit in 64 bits.
pub open spec fn mappable(files: Seq<FileView>, piece_length: int) -> bool {
    &&& piece_length > 0
    &&& forall|i: int| 0 <= i < files.len() ==> (#[trigger] files[i]).length >= 0
    &&& cursor(files, files.len() as int) <= i64::MAX
    &&& cursor(files, files.len() as int) / piece_length < i64::MAX
}

/// Without negative lengths the cursor never moves back.
pub proof fn lemma_cursor_grows(files: Seq<FileView>, i: int, j: int)
    requires
        forall|k: int| 0 <= k < files.len() ==> (#[trigger] files[k]).length >= 0,
        0 <= i <= j <= files.len(),
    ensures
        0 <= cursor(files, i) <= cursor(files, j),
    decreases j,
{
    if j > 0 {
        if i < j {
            lemma_cursor_grows(files, i, j - 1);
        } else {
            lemma_cursor_grows(files, i - 1, j - 1);
        }
    }
}

/// The quotient by a positive number grows with the dividend.
proof fn lemma_quotient_grows(a: int, b: int, d: int)
    requires
        0 <= a <= b,
        d > 0,
    ensures
        0 <= a / d <= b / d,
        0 <= a % d < d,
{
    vstd::arithmetic::div_mod::lemma_div_is_ordered(a, b, d);
    vstd::arithmetic::div_mod::lemma_div_pos_is_pos(a, d);
    vstd::arithmetic::div_mod::lemma_mod_bound(a, d);
}

/// Whether ranges can be computed for these files and this piece length.
pub fn can_map(files: &Vec<File>, piece_length: i64) -> (fits: bool)
    ensures
        fits == mappable(files.deep_view(), piece_length as int),
{
    if piece_length <= 0 {
        return false;
    }
    let ghost model = files.deep_view();
    let mut total: i64 = 0;
    let mut i: usize = 0;
    while i < files.len()
        invariant
            model == files.deep_view(),
            0 <= i <= files@.len(),
            model.len() == files@.len(),
            0 <= total == cursor(model, i as int),
            forall|k: int| 0 <= k < i ==> (#[trigger] model[k]).length >= 0,
        decreases files@.len() - i,
    {
        let length = files[i].length;
        if length < 0 {
            return false;
        }
        proof {
            assert(model[i as int].length == length);
            if total + length > i64::MAX {
                if mappable(model, piece_length as int) {
                    lemma_cursor_grows(model, i + 1, model.len() as int);
                }
            }
        }
        if length > i64::MAX - total {
            return false;
        }
        total = total + length;
        i += 1;
    }
    total / piece_length < i64::MAX
}

/// The range of every file, in the order of the files: the files are laid
/// end to end, and each begins at the byte at which the one before it ended.
pub fn map_files(files: &Vec<File>, piece_length: i64) -> (ranged: Vec<RangedFile>)
    requires
        mappable(files.deep_view(), piece_length as int),
    ensures
        ranged.deep_view() == ranged_files(files.deep_view(), piece_length as int),
{
    let ghost model = files.deep_view();
    let mut ranged: Vec<RangedFile> = Vec::new();
    let mut start_byte: i64 = 0;
    let mut i: usize = 0;
    while i < files.len()
        invariant
            model == files.deep_view(),
            mappable(model, piece_length as int),
            0 <= i <= files@.len(),
            start_byte == cursor(model, i as int),
            ranged@.len() == i,
            forall|k: int|
                0 <= k < i ==> (#[trigger] ranged@[k]).deep_view() == ranged_file(
                    model,
                    piece_length as int,
                    k,
                ),
        decreases files@.len() - i,
    {
        let file = &files[i];
        proof {
            lemma_cursor_grows(model, i as int, i + 1);
            lemma_cursor_grows(model, i + 1, model.len() as int);
            let total = cursor(model, model.len() as int);
            lemma_quotient_grows(cursor(model, i as int), total, piece_length as int);
            lemma_quotient_grows(cursor(model, i + 1), total, piece_length as int);
        }
        let first_start = PiecePoint {
            piece: start_byte / piece_length + 1,
            byte_point: start_byte % piece_length + 1,
        };
        let end_byte: i64 = start_byte + file.length;
        let last_end = PiecePoint {
            piece: end_byte / piece_length + 1,
            byte_point: end_byte % piece_length,
        };
        let entry = RangedFile {
            path: file.path.clone(),
            length: file.length,
            md5sum: file.md5sum.clone(),
            file_pieces: FilePieces { first_start, last_end },
        };
        ranged.push(entry);
        start_byte = end_byte;
        i += 1;
    }
    ranged
}

/// The byte of the payload (from 0) at which a file begins whose range
/// begins at `point`.
pub open spec fn start_offset(point: PiecePointView, piece_length: int) -> int {
    (point.piece - 1) * piece_length + (point.byte_point - 1)
}

/// The byte of the payload (from 0) that follows a file whose range ends at
/// `point`.
pub open spec fn end_offset(point: PiecePointView, piece_length: int) -> int {
    (point.piece - 1) * piece_length + point.byte_point
}

/// The ranges of a list of files follow the files in their order and leave
/// no gap: the first file begins at byte 0 of the payload, every file ends
/// as many bytes after its beginning as it is long, every later file begins
/// at the byte at which the file before it ended, and the last file ends at
/// the sum of all lengths.
pub proof fn lemma_ranges_are_contiguous(files: Seq<FileView>, piece_length: int)
    requires
        piece_length > 0,
    ensures
        ranged_files(files, piece_length).len() == files.len(),
        forall|i: int|
            #![trigger ranged_files(files, piece_length)[i]]
            0 <= i < files.len() ==> {
                let entry = ranged_files(files, piece_length)[i];
                &&& entry.path == files[i].path
                &&& entry.length == files[i].length
                &&& entry.md5sum == files[i].md5sum
                &&& start_offset(entry.file_pieces.first_start, piece_length) == cursor(files, i)
                &&& end_offset(entry.file_pieces.last_end, piece_length) == cursor(files, i)
                    + files[i].length
            },
        files.len() > 0 ==> start_offset(
            ranged_files(files, piece_length)[0].file_pieces.first_start,
            piece_length,
        ) == 0,
        forall|i: int|
            #![trigger ranged_files(files, piece_length)[i]]
            0 < i < files.len() ==> start_offset(
                ranged_files(files, piece_length)[i].file_pieces.first_start,
                piece_length,
            ) == end_offset(
                ranged_files(files, piece_length)[i - 1].file_pieces.last_end,
                piece_length,
            ),
        files.len() > 0 ==> end_offset(
            ranged_files(files, piece_length).last().file_pieces.last_end,
            piece_length,
        ) == cursor(files, files.len() as int),
{
    assert forall|i: int| 0 <= i < files.len() implies {
        let entry = #[trigger] ranged_files(files, piece_length)[i];
        &&& start_offset(entry.file_pieces.first_start, piece_length) == cursor(files, i)
        &&& end_offset(entry.file_pieces.last_end, piece_length) == cursor(files, i + 1)
    } by {
        vstd::arithmetic::div_mod::lemma_fundamental_div_mod(cursor(files, i), piece_length);
        vstd::arithmetic::div_mod::lemma_fundamental_div_mod(cursor(files, i + 1), piece_length);
        vstd::arithmetic::mul::lemma_mul_is_commutative(
            piece_length,
            cursor(files, i) / piece_length,
        );
        vstd::arithmetic::mul::lemma_mul_is_commutative(
            piece_length,
            cursor(files, i + 1) / piece_length,
        );
    }
}

} // verus!
