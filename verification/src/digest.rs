//! SHA-256 fingerprints of downloaded and staged files, their lowercase hex
//! form, and the checks that compare them with published digests.
use vstd::prelude::*;
use crate::text::{
    append_chars, chars_of, eq_ignore_ascii_case, eq_ignore_case, has_prefix,
    same_chars, starts_with, string_of, trim_chars, trimmed, copy_range,
};

verus! {

/// The SHA-256 digest of `data`.
pub uninterp spec fn sha256_digest(data: Seq<u8>) -> Seq<u8>;

/// Calls `sha2::Sha256::digest`. Claimed: the result is the digest of `data`,
/// and a SHA-256 digest is 32 bytes long.
#[verifier::external_body]
fn sha256(data: &[u8]) -> (res: Vec<u8>)
    ensures
        res@ == sha256_digest(data@),
        res@.len() == 32,
{
    <sha2::Sha256 as sha2::Digest>::digest(data).to_vec()
}

/// The lowercase hexadecimal digit for `n < 16`.
pub open spec fn hex_digit(n: int) -> char {
    if n < 10 {
        (n + 48) as char
    } else {
        (n + 87) as char
    }
}

/// Two lowercase hexadecimal digits per byte, most significant first
/// (the `{:x}` rendering of a digest).
pub open spec fn hex_lower(bytes: Seq<u8>) -> Seq<char>
    decreases bytes.len(),
{
    if bytes.len() == 0 {
        Seq::empty()
    } else {
        hex_lower(bytes.drop_last()) + seq![
            hex_digit(bytes.last() as int / 16),
            hex_digit(bytes.last() as int % 16),
        ]
    }
}

proof fn lemma_hex_lower_len(bytes: Seq<u8>)
    ensures
        hex_lower(bytes).len() == 2 * bytes.len(),
    decreases bytes.len(),
{
    if bytes.len() > 0 {
        lemma_hex_lower_len(bytes.drop_last());
    }
}

fn hex_char(n: u8) -> (res: char)
    requires
        n < 16,
    ensures
        res == hex_digit(n as int),
{
    if n < 10 {
        (n + 48) as char
    } else {
        (n + 87) as char
    }
}

/// Renders `bytes` as lowercase hexadecimal.
pub fn to_hex_lower(bytes: &[u8]) -> (res: Vec<char>)
    ensures
        res@ == hex_lower(bytes@),
        res@.len() == 2 * bytes@.len(),
{
    let mut res: Vec<char> = Vec::new();
    for i in 0..bytes.len()
        invariant
            res@ == hex_lower(bytes@.take(i as int)),
    {
        let b = bytes[i];
        res.push(hex_char(b / 16));
        res.push(hex_char(b % 16));
        assert(bytes@.take(i + 1).drop_last() =~= bytes@.take(i as int));
    }
    assert(bytes@.take(bytes.len() as int) =~= bytes@);
    proof {
        lemma_hex_lower_len(bytes@);
    }
    res
}

/// The lowercase hex SHA-256 fingerprint of `data`, 64 characters long.
pub open spec fn sha256_hex_spec(data: Seq<u8>) -> Seq<char> {
    hex_lower(sha256_digest(data))
}

/// The lowercase hex SHA-256 fingerprint of `data`.
pub fn sha256_hex(data: &[u8]) -> (res: String)
    ensures
        res@ == sha256_hex_spec(data@),
        res@.len() == 64,
{
    let digest = sha256(data);
    let hex = to_hex_lower(digest.as_slice());
    string_of(&hex)
}

/// The tag that introduces a SHA-256 digest in release metadata.
pub open spec fn sha256_tag() -> Seq<char> {
    seq!['s', 'h', 'a', '2', '5', '6', ':']
}

/// The hex digest carried by a release asset's `sha256:<hex>` digest field,
/// when it carries one.
pub open spec fn digest_hash_spec(asset_digest: Seq<char>) -> Option<Seq<char>> {
    let t = trimmed(asset_digest);
    if starts_with(t, sha256_tag()) {
        let h = trimmed(t.skip(7));
        if h.len() > 0 {
            Some(h)
        } else {
            None
        }
    } else {
        None
    }
}

/// Extracts the hex digest from a `sha256:<hex>` digest field.
pub fn digest_hash(asset_digest: &str) -> (res: Option<String>)
    ensures
        res matches Some(h) ==> digest_hash_spec(asset_digest@) == Some(h@),
        res is None ==> digest_hash_spec(asset_digest@) is None,
{
    let chars = chars_of(asset_digest);
    let t = trim_chars(&chars);
    proof {
        reveal_strlit("sha256:");
        assert("sha256:"@ =~= sha256_tag());
    }
    if !has_prefix(&t, "sha256:") {
        return None;
    }
    let rest = copy_range(&t, 7, t.len());
    assert(rest@ =~= t@.skip(7));
    let h = trim_chars(&rest);
    if h.len() == 0 {
        return None;
    }
    Some(string_of(&h))
}

/// A string holding `a` followed by `b`.
pub fn concat_strs(a: &str, b: &str) -> (res: String)
    ensures
        res@ == a@ + b@,
{
    let mut v: Vec<char> = Vec::new();
    append_chars(&mut v, a);
    append_chars(&mut v, b);
    assert(v@ =~= a@ + b@);
    string_of(&v)
}

/// Whether a download mirror is configured: present and not blank.
pub open spec fn mirrored(mirror: Option<Seq<char>>) -> bool {
    mirror matches Some(m) && trimmed(m).len() > 0
}

pub fn is_mirrored(mirror: &Option<String>) -> (res: bool)
    ensures
        res == mirrored(match mirror {
            Some(m) => Some(m@),
            None => None,
        }),
{
    match mirror {
        Some(m) => {
            let chars = chars_of(m.as_str());
            trim_chars(&chars).len() > 0
        },
        None => false,
    }
}

/// What a downloaded panel must be checked against: `Ok(Some(hex))` when the
/// release publishes a digest, `Ok(None)` when it publishes none and the
/// download came straight from the release, and an error when it publishes
/// none but a mirror served the download.
pub fn digest_requirement(asset_digest: &str, mirror: &Option<String>) -> (res: Result<
    Option<String>,
    String,
>)
    ensures
        match digest_hash_spec(asset_digest@) {
            Some(h) => res matches Ok(Some(e)) && e@ == h,
            None => if mirrored(
                match mirror {
                    Some(m) => Some(m@),
                    None => None,
                },
            ) {
                res matches Err(e) && e@ == "该版本缺少校验信息，已中止更新"@
            } else {
                res matches Ok(None)
            },
        },
{
    match digest_hash(asset_digest) {
        Some(h) => Ok(Some(h)),
        None => {
            if is_mirrored(mirror) {
                Err("该版本缺少校验信息，已中止更新".to_owned())
            } else {
                Ok(None)
            }
        },
    }
}

/// Checks a downloaded panel against its release digest. The hex digests are
/// compared without regard to ASCII case.
pub fn verify_digest(file: &[u8], asset_digest: &str, mirror: &Option<String>) -> (res: Result<
    (),
    String,
>)
    ensures
        match digest_hash_spec(asset_digest@) {
            Some(h) => if eq_ignore_ascii_case(sha256_hex_spec(file@), h) {
                res is Ok
            } else {
                res matches Err(e) && e@ == "文件校验失败，已中止更新"@
            },
            None => if mirrored(
                match mirror {
                    Some(m) => Some(m@),
                    None => None,
                },
            ) {
                res matches Err(e) && e@ == "该版本缺少校验信息，已中止更新"@
            } else {
                res is Ok
            },
        },
{
    match digest_requirement(asset_digest, mirror) {
        Err(e) => Err(e),
        Ok(None) => Ok(()),
        Ok(Some(expected)) => {
            let actual = sha256_hex(file);
            let a = chars_of(actual.as_str());
            let e = chars_of(expected.as_str());
            if eq_ignore_case(&a, &e) {
                Ok(())
            } else {
                Err("文件校验失败，已中止更新".to_owned())
            }
        },
    }
}

/// Whether the running panel differs from the release asset of the same
/// version: only when the release publishes a digest and the executable's
/// bytes could be read and do not match it.
pub fn local_out_of_sync(asset_digest: &str, exe: Option<&[u8]>) -> (res: bool)
    ensures
        res == (match (digest_hash_spec(asset_digest@), exe) {
            (Some(h), Some(bytes)) => !eq_ignore_ascii_case(sha256_hex_spec(bytes@), h),
            _ => false,
        }),
{
    match digest_hash(asset_digest) {
        None => false,
        Some(expected) => match exe {
            None => false,
            Some(bytes) => {
                let actual = sha256_hex(bytes);
                let a = chars_of(actual.as_str());
                let e = chars_of(expected.as_str());
                !eq_ignore_case(&a, &e)
            },
        },
    }
}

/// Whether `data` has the lowercase hex SHA-256 fingerprint `expected`, exactly.
pub fn hash_matches(data: &[u8], expected: &str) -> (res: bool)
    ensures
        res == (sha256_hex_spec(data@) == expected@),
{
    let actual = sha256_hex(data);
    let a = chars_of(actual.as_str());
    same_chars(&a, expected)
}

/// Checks a staged update file against the fingerprint it was approved with.
pub fn check_update_file(name: &str, data: &[u8], expected: &str) -> (res: Result<(), String>)
    ensures
        sha256_hex_spec(data@) == expected@ ==> res is Ok,
        sha256_hex_spec(data@) != expected@ ==> (res matches Err(e) && e@ == "更新文件已发生变化: "@
            + name@),
{
    if hash_matches(data, expected) {
        Ok(())
    } else {
        Err(concat_strs("更新文件已发生变化: ", name))
    }
}

/// Checks a staged panel executable against the fingerprint it was approved with.
pub fn check_panel_file(data: &[u8], expected: &str) -> (res: Result<(), String>)
    ensures
        sha256_hex_spec(data@) == expected@ ==> res is Ok,
        sha256_hex_spec(data@) != expected@ ==> (res matches Err(e) && e@ == "面板更新文件已发生变化"@),
{
    if hash_matches(data, expected) {
        Ok(())
    } else {
        Err("面板更新文件已发生变化".to_owned())
    }
}

} // verus!
