use torrent_export::model::{File, FilePieces, PiecePoint, RangedFile};
use torrent_export::ranges::{can_map, map_files};

fn file(name: &str, length: i64) -> File {
    File { path: vec![name.to_string()], length, md5sum: None }
}

fn range(first: (i64, i64), last: (i64, i64)) -> FilePieces {
    FilePieces {
        first_start: PiecePoint { piece: first.0, byte_point: first.1 },
        last_end: PiecePoint { piece: last.0, byte_point: last.1 },
    }
}

fn start_offset(point: &PiecePoint, piece_length: i64) -> i64 {
    (point.piece - 1) * piece_length + (point.byte_point - 1)
}

fn end_offset(point: &PiecePoint, piece_length: i64) -> i64 {
    (point.piece - 1) * piece_length + point.byte_point
}

#[test]
fn two_files_over_two_pieces() {
    let files = vec![file("a", 15), file("b", 5)];
    assert!(can_map(&files, 10));
    let ranged = map_files(&files, 10);
    assert_eq!(ranged.len(), 2);
    assert_eq!(ranged[0].file_pieces, range((1, 1), (2, 5)));
    assert_eq!(ranged[1].file_pieces, range((2, 6), (3, 0)));
}

#[test]
fn a_file_that_ends_on_a_piece_boundary_ends_in_the_next_piece() {
    let files = vec![file("a", 20)];
    let ranged = map_files(&files, 10);
    assert_eq!(ranged[0].file_pieces, range((1, 1), (3, 0)));
}

#[test]
fn files_keep_their_order_and_their_fields() {
    let files = vec![
        File {
            path: vec!["dir".to_string(), "one".to_string()],
            length: 7,
            md5sum: Some("0123".to_string()),
        },
        file("two", 0),
        file("three", 30),
    ];
    let ranged = map_files(&files, 16);
    assert_eq!(
        ranged,
        vec![
            RangedFile {
                path: vec!["dir".to_string(), "one".to_string()],
                length: 7,
                md5sum: Some("0123".to_string()),
                file_pieces: range((1, 1), (1, 7)),
            },
            RangedFile {
                path: vec!["two".to_string()],
                length: 0,
                md5sum: None,
                file_pieces: range((1, 8), (1, 7)),
            },
            RangedFile {
                path: vec!["three".to_string()],
                length: 30,
                md5sum: None,
                file_pieces: range((1, 8), (3, 5)),
            },
        ]
    );
}

#[test]
fn ranges_leave_no_gap() {
    let lengths = [3i64, 0, 17, 64, 1, 1000, 32];
    let files: Vec<File> = lengths.iter().map(|l| file("f", *l)).collect();
    let piece_length = 32;
    let ranged = map_files(&files, piece_length);
    assert_eq!(ranged.len(), files.len());
    assert_eq!(start_offset(&ranged[0].file_pieces.first_start, piece_length), 0);
    for i in 0..ranged.len() {
        let begin = start_offset(&ranged[i].file_pieces.first_start, piece_length);
        let end = end_offset(&ranged[i].file_pieces.last_end, piece_length);
        assert_eq!(end - begin, lengths[i]);
        if i > 0 {
            assert_eq!(begin, end_offset(&ranged[i - 1].file_pieces.last_end, piece_length));
        }
    }
    let total: i64 = lengths.iter().sum();
    assert_eq!(end_offset(&ranged[ranged.len() - 1].file_pieces.last_end, piece_length), total);
}

#[test]
fn no_files_give_no_ranges() {
    assert!(can_map(&Vec::new(), 1));
    assert_eq!(map_files(&Vec::new(), 1), Vec::<RangedFile>::new());
}

#[test]
fn piece_length_of_one() {
    let ranged = map_files(&vec![file("a", 3), file("b", 2)], 1);
    assert_eq!(ranged[0].file_pieces, range((1, 1), (4, 0)));
    assert_eq!(ranged[1].file_pieces, range((4, 1), (6, 0)));
}

#[test]
fn a_piece_length_that_is_not_positive_cannot_be_mapped() {
    assert!(!can_map(&vec![file("a", 1)], 0));
    assert!(!can_map(&vec![file("a", 1)], -4));
    assert!(!can_map(&Vec::new(), 0));
}

#[test]
fn a_negative_length_cannot_be_mapped() {
    assert!(!can_map(&vec![file("a", 5), file("b", -1)], 10));
}

#[test]
fn a_total_beyond_sixty_four_bits_cannot_be_mapped() {
    assert!(!can_map(&vec![file("a", i64::MAX), file("b", 1)], 10));
    assert!(can_map(&vec![file("a", i64::MAX - 1), file("b", 1)], 10));
    assert!(!can_map(&vec![file("a", i64::MAX)], 1));
    assert!(can_map(&vec![file("a", i64::MAX - 1)], 1));
}

#[test]
fn the_largest_total_is_mapped() {
    let ranged = map_files(&vec![file("a", i64::MAX)], 2);
    assert_eq!(ranged[0].file_pieces, range((1, 1), (i64::MAX / 2 + 1, 1)));
}
