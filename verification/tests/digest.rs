use singboard::digest::{
    check_panel_file, check_update_file, concat_strs, digest_hash, digest_requirement, hash_matches,
    is_mirrored, local_out_of_sync, sha256_hex, to_hex_lower, verify_digest,
};

const ABC: &str = "ba7816bf8f01cfea414140de5dae2223b00361a396177a9cb410ff61f20015ad";

#[test]
fn sha256_matches_the_published_vectors() {
    assert_eq!(sha256_hex(b"abc"), ABC);
    assert_eq!(
        sha256_hex(b""),
        "e3b0c44298fc1c149afbf4c8996fb92427ae41e4649b934ca495991b7852b855"
    );
    assert_eq!(to_hex_lower(&[0x00, 0x0f, 0xa0, 0xff]).into_iter().collect::<String>(), "000fa0ff");
    assert_eq!(concat_strs("ab", "cd"), "abcd");
}

#[test]
fn release_digests_carry_a_sha256_tag() {
    assert_eq!(digest_hash(&format!(" sha256: {ABC} ")), Some(ABC.to_owned()));
    assert_eq!(digest_hash("sha256:"), None);
    assert_eq!(digest_hash("sha512:abcd"), None);
    assert_eq!(digest_hash("SHA256:abcd"), None);
    assert_eq!(digest_hash(""), None);
}

#[test]
fn downloads_are_checked_against_the_release_digest() {
    let digest = format!("sha256:{}", ABC.to_uppercase());
    assert_eq!(verify_digest(b"abc", &digest, &None), Ok(()));
    assert_eq!(
        verify_digest(b"abd", &digest, &None),
        Err("文件校验失败，已中止更新".to_owned())
    );
    // Without a digest only a direct download is accepted.
    assert_eq!(verify_digest(b"abc", "", &None), Ok(()));
    assert_eq!(verify_digest(b"abc", "", &Some("  ".to_owned())), Ok(()));
    assert_eq!(
        verify_digest(b"abc", "", &Some("https://mirror/".to_owned())),
        Err("该版本缺少校验信息，已中止更新".to_owned())
    );
    assert!(is_mirrored(&Some("x".to_owned())));
    assert!(!is_mirrored(&None));
    assert_eq!(digest_requirement(&digest, &None), Ok(Some(ABC.to_uppercase())));
    assert_eq!(digest_requirement("", &None), Ok(None));
}

#[test]
fn the_running_panel_is_compared_with_the_release() {
    let digest = format!("sha256:{ABC}");
    assert!(!local_out_of_sync(&digest, Some(b"abc")));
    assert!(local_out_of_sync(&digest, Some(b"abd")));
    assert!(!local_out_of_sync(&digest, None));
    assert!(!local_out_of_sync("", Some(b"abd")));
}

#[test]
fn staged_files_must_keep_their_approved_fingerprint() {
    assert!(hash_matches(b"abc", ABC));
    assert!(!hash_matches(b"abc", &ABC.to_uppercase()));
    assert_eq!(check_update_file("sing-box.exe", b"abc", ABC), Ok(()));
    assert_eq!(
        check_update_file("sing-box.exe", b"abd", ABC),
        Err("更新文件已发生变化: sing-box.exe".to_owned())
    );
    assert_eq!(check_panel_file(b"abc", ABC), Ok(()));
    assert_eq!(check_panel_file(b"", ABC), Err("面板更新文件已发生变化".to_owned()));
}
