use torrent_export::error::TorrentError;

#[test]
fn unsupported_type_is_described() {
    assert_eq!(TorrentError::UnsupportedType.description(), "This type is not supported yet");
}

#[test]
fn invalid_pieces_length_is_described() {
    assert_eq!(
        TorrentError::InvalidPiecesLength.description(),
        "The length of the pieces must be dividable by 20"
    );
}

#[test]
fn other_is_described_by_its_message() {
    assert_eq!(TorrentError::Other("End of stream".to_string()).description(), "End of stream");
}
