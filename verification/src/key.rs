//! Content keys, and where the file of a key lies under the media store.
//!
//! A key is thirty-two hexadecimal digits, and after them, if anything, a
//! dot and an extension of letters and digits, which may be empty. Its file
//! lies in the directory named by the first two digits.

use vstd::prelude::*;
use vstd::string::StrSliceExecFns;
use std::path::Path;
use std::path::PathBuf;
use crate::error::ApiError;
use crate::text::alphanumeric;
use crate::text::hex_digit;
use crate::text::is_alphanumeric;
use crate::text::is_hex_digit;

verus! {

/// How many digits the hash of a key has.
pub const HASH_LEN: usize = 32;

/// How many digits of the hash name the directory.
pub const SHARD_LEN: usize = 2;

/// A borrowed path of the standard library; a value is only handed on.
#[verifier::external_type_specification]
#[verifier::external_body]
pub struct ExPath(Path);

/// An owned path of the standard library; a value is only handed on.
#[verifier::external_type_specification]
#[verifier::external_body]
pub struct ExPathBuf(PathBuf);

/// The owned path that `PathBuf::from` makes of a borrowed one.
pub uninterp spec fn path_owned(path: &Path) -> PathBuf;

/// The path that `PathBuf::push` makes of a path and a component.
pub uninterp spec fn path_pushed(path: PathBuf, component: Seq<char>) -> PathBuf;

/// `PathBuf::from` on a borrowed path: the result is a function of the path.
#[verifier::external_body]
fn owned_path(path: &Path) -> (owned: PathBuf)
    ensures
        owned == path_owned(path),
{
    PathBuf::from(path)
}

/// `PathBuf::push` with a string: the path afterwards is a function of the
/// path before and of the string.
#[verifier::external_body]
fn push_component(path: &mut PathBuf, component: &str)
    ensures
        *final(path) == path_pushed(*old(path), component@),
{
    path.push(component)
}

/// Whether `c` may stand at position `i` of a key.
pub open spec fn fits_at(i: int, c: char) -> bool {
    if i < HASH_LEN {
        is_hex_digit(c)
    } else if i == HASH_LEN {
        c == '.'
    } else {
        is_alphanumeric(c)
    }
}

/// Whether `key` is a content key.
pub open spec fn valid_key(key: Seq<char>) -> bool {
    &&& key.len() >= HASH_LEN
    &&& forall|i: int| 0 <= i < key.len() ==> fits_at(i, #[trigger] key[i])
}

/// The name of the directory that holds the file of a key.
pub open spec fn shard(key: Seq<char>) -> Seq<char> {
    key.subrange(0, SHARD_LEN as int)
}

/// The path of the file of a key under `base`.
pub open spec fn key_path(base: &Path, key: Seq<char>) -> PathBuf {
    path_pushed(path_pushed(path_owned(base), shard(key)), key)
}

/// A key is a single path component: it holds no separator, and it is
/// neither `.` nor `..`, so its path stays under the base directory.
pub proof fn law_valid_key_is_one_component(key: Seq<char>)
    requires
        valid_key(key),
    ensures
        forall|i: int| 0 <= i < key.len() ==> #[trigger] key[i] != '/' && key[i] != '\\',
        key.len() > 2,
        shard(key).len() == 2,
        is_hex_digit(shard(key)[0]) && is_hex_digit(shard(key)[1]),
{
}

/// Whether `key` is a content key.
pub fn is_valid_key(key: &str) -> (valid: bool)
    ensures
        valid == valid_key(key@),
{
    let len = key.unicode_len();
    let mut n: usize = 0;
    let mut fits = true;
    for c in it: key.chars()
        invariant
            it.seq() == key@,
            len == key@.len(),
            n == it.index(),
            fits == (forall|i: int| 0 <= i < n ==> fits_at(i, #[trigger] key@[i])),
    {
        let here = if n < HASH_LEN {
            hex_digit(c)
        } else if n == HASH_LEN {
            c == '.'
        } else {
            alphanumeric(c)
        };
        fits = fits && here;
        n = n + 1;
    }
    fits && len >= HASH_LEN
}

/// The path of the file that `key` names under `base_path`. A malformed key
/// is rejected, and carried in the error.
pub fn path_from_key(base_path: &Path, key: &str) -> (r: Result<PathBuf, ApiError>)
    ensures
        match r {
            Ok(path) => valid_key(key@) && path == key_path(base_path, key@),
            Err(e) => {
                &&& !valid_key(key@)
                &&& e matches ApiError::InvalidKey(k)
                &&& k@ == key@
            },
        },
{
    if !is_valid_key(key) {
        return Err(ApiError::InvalidKey(key.to_owned()));
    }
    let prefix = key.substring_char(0, SHARD_LEN);
    let mut path = owned_path(base_path);
    push_component(&mut path, prefix);
    push_component(&mut path, key);
    Ok(path)
}

} // verus!
