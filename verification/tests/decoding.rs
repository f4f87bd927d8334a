use torrent_export::bencode::{parse, Bencode};
use torrent_export::decode::{decode, describe, text_value};
use torrent_export::error::TorrentError;
use torrent_export::model::{File, Info, Node, Torrent};

fn raw(content: &[u8]) -> Vec<u8> {
    let mut out = format!("{}:", content.len()).into_bytes();
    out.extend_from_slice(content);
    out
}

fn string(content: &str) -> Vec<u8> {
    raw(content.as_bytes())
}

fn number(value: i64) -> Vec<u8> {
    format!("i{}e", value).into_bytes()
}

fn listed(items: &[Vec<u8>]) -> Vec<u8> {
    let mut out = vec![b'l'];
    for item in items {
        out.extend_from_slice(item);
    }
    out.push(b'e');
    out
}

fn keyed(entries: &[(&str, Vec<u8>)]) -> Vec<u8> {
    let mut out = vec![b'd'];
    for (key, value) in entries {
        out.extend_from_slice(&string(key));
        out.extend_from_slice(value);
    }
    out.push(b'e');
    out
}

fn small_info(pieces: &[u8]) -> Vec<u8> {
    keyed(&[("name", string("payload")), ("piece length", number(16)), ("pieces", raw(pieces))])
}

fn plain_info(pieces: Vec<u8>) -> Info {
    Info {
        name: "payload".to_string(),
        pieces,
        piece_length: 16,
        md5sum: None,
        length: None,
        files: None,
        private: None,
        path: None,
        root_hash: None,
    }
}

fn plain_torrent(info: Info) -> Torrent {
    Torrent {
        info,
        announce: None,
        nodes: None,
        encoding: None,
        httpseeds: None,
        announce_list: None,
        creation_date: None,
        comment: None,
        created_by: None,
    }
}

#[test]
fn parse_reads_an_integer() {
    assert_eq!(parse(b"i42e"), Ok(Bencode::Int(42)));
    assert_eq!(parse(b"i-7e"), Ok(Bencode::Int(-7)));
}

#[test]
fn parse_reads_a_byte_string() {
    assert_eq!(parse(b"4:spam"), Ok(Bencode::Bytes(b"spam".to_vec())));
    assert_eq!(parse(b"0:"), Ok(Bencode::Bytes(Vec::new())));
}

#[test]
fn parse_reads_a_list_in_order() {
    assert_eq!(
        parse(b"l4:spami7ee"),
        Ok(Bencode::List(vec![Bencode::Bytes(b"spam".to_vec()), Bencode::Int(7)]))
    );
}

#[test]
fn parse_reads_a_dictionary() {
    assert_eq!(
        parse(b"d3:keyli1ei2eee"),
        Ok(Bencode::Dict(vec![(
            b"key".to_vec(),
            Bencode::List(vec![Bencode::Int(1), Bencode::Int(2)])
        )]))
    );
}

#[test]
fn parse_reads_every_entry_of_a_dictionary() {
    let parsed = parse(b"d1:ai1e1:bi2e1:ci3ee").unwrap();
    match parsed {
        Bencode::Dict(mut entries) => {
            entries.sort_by(|x, y| x.0.cmp(&y.0));
            assert_eq!(
                entries,
                vec![
                    (b"a".to_vec(), Bencode::Int(1)),
                    (b"b".to_vec(), Bencode::Int(2)),
                    (b"c".to_vec(), Bencode::Int(3)),
                ]
            );
        }
        other => panic!("not a dictionary: {:?}", other),
    }
}

#[test]
fn parse_rejects_a_truncated_buffer() {
    assert_eq!(parse(b"l4:spam"), Err(TorrentError::Other("End of stream".to_string())));
    assert!(matches!(parse(b"10:short"), Err(TorrentError::Other(_))));
    assert!(matches!(parse(b""), Err(TorrentError::Other(_))));
}

#[test]
fn parse_rejects_an_unknown_lead_byte() {
    assert_eq!(parse(b"x"), Err(TorrentError::Other("Invalid character `x`".to_string())));
}

#[test]
fn text_value_reads_utf8() {
    assert_eq!(
        text_value(&Bencode::Bytes("caf\u{e9} \u{1f600}".as_bytes().to_vec())),
        Some("caf\u{e9} \u{1f600}".to_string())
    );
    assert_eq!(text_value(&Bencode::Bytes(Vec::new())), Some(String::new()));
}

#[test]
fn text_value_rejects_what_is_not_utf8() {
    assert_eq!(text_value(&Bencode::Bytes(vec![0xff, 0xfe])), None);
    assert_eq!(text_value(&Bencode::Bytes(vec![0xc3])), None);
    assert_eq!(text_value(&Bencode::Int(1)), None);
}

#[test]
fn top_level_that_is_no_dictionary_is_unsupported() {
    assert_eq!(decode(b"i42e"), Err(TorrentError::UnsupportedType));
    assert_eq!(decode(b"4:spam"), Err(TorrentError::UnsupportedType));
    assert_eq!(decode(b"l4:infoe"), Err(TorrentError::UnsupportedType));
    assert_eq!(describe(&Bencode::List(Vec::new())), Err(TorrentError::UnsupportedType));
}

#[test]
fn pieces_of_length_twenty_one_are_rejected() {
    let input = keyed(&[("info", small_info(&[7u8; 21]))]);
    assert_eq!(decode(&input), Err(TorrentError::InvalidPiecesLength));
}

#[test]
fn malformed_input_gives_the_decoders_message() {
    let mut input = keyed(&[("info", small_info(&[7u8; 20]))]);
    input.pop();
    assert_eq!(decode(&input), Err(TorrentError::Other("End of stream".to_string())));
}

#[test]
fn smallest_descriptor() {
    let input = keyed(&[("info", small_info(&[7u8; 20]))]);
    assert_eq!(decode(&input), Ok(plain_torrent(plain_info(vec![7u8; 20]))));
}

#[test]
fn descriptor_without_pieces_bytes() {
    let input = keyed(&[("info", small_info(&[]))]);
    assert_eq!(decode(&input), Ok(plain_torrent(plain_info(Vec::new()))));
}

#[test]
fn descriptor_with_every_field() {
    let pieces: Vec<u8> = (0u8..40).collect();
    let info = keyed(&[
        (
            "files",
            listed(&[
                keyed(&[
                    ("length", number(15)),
                    ("md5sum", string("abc")),
                    ("path", listed(&[string("dir"), string("a.txt")])),
                ]),
                keyed(&[("length", number(5)), ("path", listed(&[string("b.txt")]))]),
            ]),
        ),
        ("length", number(20)),
        ("md5sum", string("d41d")),
        ("name", string("payload")),
        ("path", listed(&[string("p"), string("q")])),
        ("piece length", number(10)),
        ("pieces", raw(&pieces)),
        ("private", number(1)),
        ("root hash", string("root")),
    ]);
    let input = keyed(&[
        ("announce", string("http://tracker/announce")),
        (
            "announce-list",
            listed(&[listed(&[string("u1"), string("u2")]), listed(&[string("u3")])]),
        ),
        ("comment", string("a comment")),
        ("created by", string("a tool")),
        ("creation date", number(1500000000)),
        ("encoding", string("UTF-8")),
        ("httpseeds", listed(&[string("http://seed")])),
        ("info", info),
        ("nodes", listed(&[listed(&[string("host.example"), number(6881)])])),
    ]);
    let expected = Torrent {
        info: Info {
            name: "payload".to_string(),
            pieces,
            piece_length: 10,
            md5sum: Some("d41d".to_string()),
            length: Some(20),
            files: Some(vec![
                File {
                    path: vec!["dir".to_string(), "a.txt".to_string()],
                    length: 15,
                    md5sum: Some("abc".to_string()),
                },
                File { path: vec!["b.txt".to_string()], length: 5, md5sum: None },
            ]),
            private: Some(1),
            path: Some(vec!["p".to_string(), "q".to_string()]),
            root_hash: Some("root".to_string()),
        },
        announce: Some("http://tracker/announce".to_string()),
        nodes: Some(vec![Node("host.example".to_string(), 6881)]),
        encoding: Some("UTF-8".to_string()),
        httpseeds: Some(vec!["http://seed".to_string()]),
        announce_list: Some(vec![
            vec!["u1".to_string(), "u2".to_string()],
            vec!["u3".to_string()],
        ]),
        creation_date: Some(1500000000),
        comment: Some("a comment".to_string()),
        created_by: Some("a tool".to_string()),
    };
    assert_eq!(decode(&input), Ok(expected));
}

#[test]
fn unknown_keys_are_passed_over() {
    let input = keyed(&[
        ("info", small_info(&[7u8; 20])),
        ("url-list", listed(&[string("x")])),
        ("zzz", keyed(&[("deep", number(1))])),
    ]);
    assert_eq!(decode(&input), Ok(plain_torrent(plain_info(vec![7u8; 20]))));
}

#[test]
fn missing_info_is_unsupported() {
    assert_eq!(decode(&keyed(&[("announce", string("u"))])), Err(TorrentError::UnsupportedType));
    assert_eq!(decode(b"de"), Err(TorrentError::UnsupportedType));
}

#[test]
fn info_that_is_a_list_is_unsupported() {
    let input = keyed(&[("info", listed(&[string("name")]))]);
    assert_eq!(decode(&input), Err(TorrentError::UnsupportedType));
}

#[test]
fn missing_required_info_fields_are_unsupported() {
    let no_name = keyed(&[("piece length", number(16)), ("pieces", raw(&[0u8; 20]))]);
    let no_pieces = keyed(&[("name", string("n")), ("piece length", number(16))]);
    let no_piece_length = keyed(&[("name", string("n")), ("pieces", raw(&[0u8; 20]))]);
    for info in [no_name, no_pieces, no_piece_length] {
        assert_eq!(decode(&keyed(&[("info", info)])), Err(TorrentError::UnsupportedType));
    }
}

#[test]
fn fields_of_the_wrong_shape_are_unsupported() {
    let wrong = [
        keyed(&[("announce", number(1)), ("info", small_info(&[0u8; 20]))]),
        keyed(&[("creation date", string("now")), ("info", small_info(&[0u8; 20]))]),
        keyed(&[("httpseeds", string("seed")), ("info", small_info(&[0u8; 20]))]),
        keyed(&[("httpseeds", listed(&[number(1)])), ("info", small_info(&[0u8; 20]))]),
        keyed(&[("announce-list", listed(&[string("u")])), ("info", small_info(&[0u8; 20]))]),
        keyed(&[("info", small_info(&[0u8; 20])), ("nodes", listed(&[listed(&[string("h")])]))]),
        keyed(&[
            ("info", small_info(&[0u8; 20])),
            ("nodes", listed(&[listed(&[string("h"), number(1), number(2)])])),
        ]),
        keyed(&[
            ("info", small_info(&[0u8; 20])),
            ("nodes", listed(&[listed(&[number(1), string("h")])])),
        ]),
    ];
    for input in wrong {
        assert_eq!(decode(&input), Err(TorrentError::UnsupportedType));
    }
}

#[test]
fn a_name_that_is_not_utf8_is_unsupported() {
    let info = keyed(&[
        ("name", raw(&[0xff, 0xfe])),
        ("piece length", number(16)),
        ("pieces", raw(&[0u8; 20])),
    ]);
    assert_eq!(decode(&keyed(&[("info", info)])), Err(TorrentError::UnsupportedType));
}

#[test]
fn private_is_a_byte() {
    let with_private = |value: i64| {
        keyed(&[(
            "info",
            keyed(&[
                ("name", string("payload")),
                ("piece length", number(16)),
                ("pieces", raw(&[7u8; 20])),
                ("private", number(value)),
            ]),
        )])
    };
    let mut expected = plain_info(vec![7u8; 20]);
    expected.private = Some(255);
    assert_eq!(decode(&with_private(255)), Ok(plain_torrent(expected)));
    let mut expected = plain_info(vec![7u8; 20]);
    expected.private = Some(0);
    assert_eq!(decode(&with_private(0)), Ok(plain_torrent(expected)));
    assert_eq!(decode(&with_private(256)), Err(TorrentError::UnsupportedType));
    assert_eq!(decode(&with_private(-1)), Err(TorrentError::UnsupportedType));
}

#[test]
fn a_file_without_path_or_length_is_unsupported() {
    let with_files = |file: Vec<u8>| {
        keyed(&[(
            "info",
            keyed(&[
                ("files", listed(&[file])),
                ("name", string("payload")),
                ("piece length", number(16)),
                ("pieces", raw(&[7u8; 20])),
            ]),
        )])
    };
    assert_eq!(
        decode(&with_files(keyed(&[("length", number(1))]))),
        Err(TorrentError::UnsupportedType)
    );
    assert_eq!(
        decode(&with_files(keyed(&[("path", listed(&[string("a")]))]))),
        Err(TorrentError::UnsupportedType)
    );
    assert_eq!(decode(&with_files(number(3))), Err(TorrentError::UnsupportedType));
}

#[test]
fn a_shape_error_comes_before_the_pieces_length() {
    let input = keyed(&[("announce", number(1)), ("info", small_info(&[0u8; 21]))]);
    assert_eq!(decode(&input), Err(TorrentError::UnsupportedType));
}

#[test]
fn the_first_entry_of_a_repeated_key_counts() {
    let value = Bencode::Dict(vec![
        (b"info".to_vec(), Bencode::Int(1)),
        (
            b"info".to_vec(),
            Bencode::Dict(vec![
                (b"name".to_vec(), Bencode::Bytes(b"payload".to_vec())),
                (b"piece length".to_vec(), Bencode::Int(16)),
                (b"pieces".to_vec(), Bencode::Bytes(Vec::new())),
            ]),
        ),
    ]);
    assert_eq!(describe(&value), Err(TorrentError::UnsupportedType));
}

#[test]
fn describe_reads_a_value_built_by_hand() {
    let value = Bencode::Dict(vec![
        (b"comment".to_vec(), Bencode::Bytes(b"hi".to_vec())),
        (
            b"info".to_vec(),
            Bencode::Dict(vec![
                (b"pieces".to_vec(), Bencode::Bytes(vec![1u8; 40])),
                (b"piece length".to_vec(), Bencode::Int(16)),
                (b"name".to_vec(), Bencode::Bytes(b"payload".to_vec())),
            ]),
        ),
    ]);
    let mut expected = plain_torrent(plain_info(vec![1u8; 40]));
    expected.comment = Some("hi".to_string());
    assert_eq!(describe(&value), Ok(expected));
}
