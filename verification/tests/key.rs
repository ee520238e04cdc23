use media_thumb::error::ApiError;
use media_thumb::key::{is_valid_key, path_from_key};
use std::path::{Path, PathBuf};

const HASH: &str = "0123456789abcdefABCDEF0123456789";

fn rejected(key: &str) {
    assert!(!is_valid_key(key), "{:?}", key);
    assert_eq!(
        path_from_key(Path::new("/srv/media"), key),
        Err(ApiError::InvalidKey(key.to_string())),
        "{:?}",
        key
    );
}

#[test]
fn key_with_extension_resolves_under_its_shard() {
    let key = format!("{}.jpg", HASH);
    assert!(is_valid_key(&key));
    let path = path_from_key(Path::new("/srv/media"), &key).unwrap();
    assert_eq!(path, PathBuf::from(format!("/srv/media/01/{}.jpg", HASH)));
}

#[test]
fn key_without_extension_resolves() {
    let path = path_from_key(Path::new("/srv/media"), HASH).unwrap();
    assert_eq!(path, PathBuf::from(format!("/srv/media/01/{}", HASH)));
}

#[test]
fn key_with_empty_extension_resolves() {
    let key = format!("{}.", HASH);
    let path = path_from_key(Path::new("/srv/media"), &key).unwrap();
    assert_eq!(path, PathBuf::from("/srv/media").join("01").join(&key));
}

#[test]
fn shard_keeps_the_case_of_the_key() {
    let key = "AbcdefABCDEF0123456789abcdef0123.PNG";
    let path = path_from_key(Path::new("store"), key).unwrap();
    assert_eq!(path, PathBuf::from("store/Ab/AbcdefABCDEF0123456789abcdef0123.PNG"));
}

#[test]
fn base_with_trailing_separator_gets_no_second_one() {
    let path = path_from_key(Path::new("/srv/media/"), HASH).unwrap();
    assert_eq!(path, Path::new("/srv/media/").join("01").join(HASH));
    assert_eq!(path.to_str(), Some("/srv/media/01/0123456789abcdefABCDEF0123456789"));
}

#[test]
fn short_hash_is_rejected() {
    rejected("0123456789abcdef.jpg");
    rejected("0123456789abcdefABCDEF012345678");
    rejected("");
    rejected(".jpg");
}

#[test]
fn long_hash_is_rejected() {
    rejected("0123456789abcdefABCDEF01234567890");
    rejected("0123456789abcdefABCDEF01234567890.jpg");
}

#[test]
fn hash_with_other_characters_is_rejected() {
    rejected("0123456789abcdefABCDEF012345678g");
    rejected("0123456789abcdefABCDEF012345678g.jpg");
    rejected("../../../../../../../etc/passwd0");
    rejected("0123456789abcdefABCDEF01234567/9");
    rejected("0123456789abcdefABCDEF012345678\u{e9}");
    rejected("\u{ff10}123456789abcdefABCDEF0123456789");
}

#[test]
fn extension_with_other_characters_is_rejected() {
    rejected("0123456789abcdefABCDEF0123456789.tar.gz");
    rejected("0123456789abcdefABCDEF0123456789.jp g");
    rejected("0123456789abcdefABCDEF0123456789./etc");
    rejected("0123456789abcdefABCDEF0123456789..");
    rejected("0123456789abcdefABCDEF0123456789.j\u{e9}");
    rejected("0123456789abcdefABCDEF0123456789_jpg");
}
