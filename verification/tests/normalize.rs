use deluge_rpc::add_torrent::AddTorrentError;
use deluge_rpc::error::{GenericError, SpecializedError};
use deluge_rpc::hash::InfoHash;
use deluge_rpc::value::Value;

fn add_torrent_error(msg: &str) -> GenericError {
    GenericError {
        exception: "AddTorrentError".to_string(),
        args: vec![Value::Str(msg.to_string())],
        kwargs: vec![],
        traceback: "".to_string(),
    }
}

#[test]
fn normalize_already_in_session() {
    let hex = "aaaaaaaaaaaaaaaaaaaaaaaaaaaaaaaaaaaaaaaa";
    let msg = format!("Torrent already in session ({}).", hex);
    let r = SpecializedError::specialize(add_torrent_error(&msg));
    let expected = InfoHash::from_hex(hex).unwrap();
    assert_eq!(r, SpecializedError::AddTorrent(AddTorrentError::AlreadyInSession(expected)));
}

#[test]
fn normalize_already_in_session_hash_verbatim() {
    let hex = "0123456789abcdef0123456789abcdef01234567";
    let msg = format!("Torrent already in session ({}).", hex);
    let r = SpecializedError::specialize(add_torrent_error(&msg));
    match r {
        SpecializedError::AddTorrent(AddTorrentError::AlreadyInSession(h)) => {
            assert_eq!(h.to_hex(), hex);
        }
        other => panic!("unexpected: {:?}", other),
    }
}

#[test]
fn normalize_already_being_added_mixed_case() {
    let msg = "Torrent already being added (0123456789ABCDEF0123456789abcdef01234567).";
    let r = SpecializedError::specialize(add_torrent_error(msg));
    let expected = InfoHash::from_hex("0123456789ABCDEF0123456789abcdef01234567").unwrap();
    assert_eq!(r, SpecializedError::AddTorrent(AddTorrentError::AlreadyBeingAdded(expected)));
}

#[test]
fn normalize_invalid_magnet() {
    let msg = "Unable to add magnet, invalid magnet info: bad-uri";
    let r = SpecializedError::specialize(add_torrent_error(msg));
    assert_eq!(
        r,
        SpecializedError::AddTorrent(AddTorrentError::UnableToAddMagnet("bad-uri".to_string()))
    );
}

#[test]
fn normalize_must_specify() {
    let msg = "You must specify a valid torrent_info, torrent state or magnet.";
    let r = SpecializedError::specialize(add_torrent_error(msg));
    assert_eq!(r, SpecializedError::AddTorrent(AddTorrentError::MustSpecifyValidTorrent));
}

#[test]
fn normalize_filedump_failed() {
    let msg = "Unable to add torrent, decoding filedump failed: not bencoded";
    let r = SpecializedError::specialize(add_torrent_error(msg));
    assert_eq!(
        r,
        SpecializedError::AddTorrent(AddTorrentError::DecodingFiledumpFailed(
            "not bencoded".to_string()
        ))
    );
}

#[test]
fn normalize_unable_to_add_to_session() {
    let msg = "Unable to add torrent to session: duplicate";
    let r = SpecializedError::specialize(add_torrent_error(msg));
    assert_eq!(
        r,
        SpecializedError::AddTorrent(AddTorrentError::UnableToAddToSession(
            "duplicate".to_string()
        ))
    );
}

#[test]
fn normalize_unrecognized_text_is_other() {
    let msg = "some unrecognized text";
    let r = SpecializedError::specialize(add_torrent_error(msg));
    assert_eq!(
        r,
        SpecializedError::AddTorrent(AddTorrentError::Other("some unrecognized text".to_string()))
    );
}

#[test]
fn normalize_bad_hash_length_is_other() {
    let msg = "Torrent already in session (abc).";
    let r = SpecializedError::specialize(add_torrent_error(msg));
    assert_eq!(r, SpecializedError::AddTorrent(AddTorrentError::Other(msg.to_string())));
}

#[test]
fn normalize_non_hex_hash_is_other() {
    let msg = "Torrent already in session (zzzzzzzzzzzzzzzzzzzzzzzzzzzzzzzzzzzzzzzz).";
    let r = SpecializedError::specialize(add_torrent_error(msg));
    assert_eq!(r, SpecializedError::AddTorrent(AddTorrentError::Other(msg.to_string())));
}

#[test]
fn normalize_other_exception_passes_through() {
    let err = GenericError {
        exception: "SomeOtherException".to_string(),
        args: vec![Value::Int(1), Value::Str("x".to_string())],
        kwargs: vec![("k".to_string(), Value::Bool(true))],
        traceback: "tb".to_string(),
    };
    let r = SpecializedError::specialize(err);
    match r {
        SpecializedError::Generic(e) => {
            assert_eq!(e.exception, "SomeOtherException");
            assert_eq!(e.args, vec![Value::Int(1), Value::Str("x".to_string())]);
            assert_eq!(e.kwargs, vec![("k".to_string(), Value::Bool(true))]);
            assert_eq!(e.traceback, "tb");
        }
        other => panic!("unexpected: {:?}", other),
    }
}

#[test]
fn normalize_add_torrent_wrong_arity_passes_through() {
    let make = || GenericError {
        exception: "AddTorrentError".to_string(),
        args: vec![
            Value::Str("a".to_string()),
            Value::Str("b".to_string()),
        ],
        kwargs: vec![],
        traceback: "tb".to_string(),
    };
    let r = SpecializedError::specialize(make());
    assert_eq!(r, SpecializedError::Generic(make()));
}

#[test]
fn normalize_add_torrent_non_text_arg_passes_through() {
    let make = || GenericError {
        exception: "AddTorrentError".to_string(),
        args: vec![Value::Int(5)],
        kwargs: vec![],
        traceback: "".to_string(),
    };
    let r = SpecializedError::specialize(make());
    assert_eq!(r, SpecializedError::Generic(make()));
}

#[test]
fn round_trip_all_recognized_variants() {
    let hash = InfoHash::from_hex("00ff00ff00ff00ff00ff00ff00ff00ff00ff00ff").unwrap();
    let variants = vec![
        AddTorrentError::AlreadyInSession(hash.clone()),
        AddTorrentError::AlreadyBeingAdded(hash),
        AddTorrentError::UnableToAddMagnet("uri".to_string()),
        AddTorrentError::MustSpecifyValidTorrent,
        AddTorrentError::DecodingFiledumpFailed("detail".to_string()),
        AddTorrentError::UnableToAddToSession("detail".to_string()),
    ];
    for v in variants {
        let msg = v.to_daemon_message().unwrap();
        let back = AddTorrentError::from_message(&msg);
        assert_eq!(back, v);
    }
}

#[test]
fn other_variant_has_no_daemon_message() {
    let v = AddTorrentError::Other("free text".to_string());
    assert!(v.to_daemon_message().is_none());
}

#[test]
fn display_strings() {
    let hex = "0123456789abcdef0123456789abcdef01234567";
    let hash = InfoHash::from_hex(hex).unwrap();
    let e = AddTorrentError::AlreadyInSession(hash);
    assert_eq!(e.display_string(), format!("Torrent already in session: {}", hex));
    let s = SpecializedError::AddTorrent(e);
    assert_eq!(
        s.display_string(),
        format!("AddTorrentError: Torrent already in session: {}", hex)
    );
    let g = GenericError {
        exception: "E".to_string(),
        args: vec![],
        kwargs: vec![],
        traceback: "the traceback".to_string(),
    };
    assert_eq!(g.display_string(), "the traceback");
    assert_eq!(SpecializedError::Generic(g).display_string(), "the traceback");
}

#[test]
fn from_parts_keeps_fields() {
    let e = GenericError::from_parts(
        "E".to_string(),
        vec![Value::Null],
        vec![("k".to_string(), Value::Int(1))],
        "tb".to_string(),
    );
    assert_eq!(e.exception, "E");
    assert_eq!(e.args, vec![Value::Null]);
    assert_eq!(e.kwargs, vec![("k".to_string(), Value::Int(1))]);
    assert_eq!(e.traceback, "tb");
}
