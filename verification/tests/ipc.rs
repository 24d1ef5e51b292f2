use singboard::ipc::pipe_security;
use singboard::ipc::{encode_frame, frame_length, valid_sid, wide, wide_multi, MAX_FRAME};

#[test]
fn rejects_sddl_injection() {
    assert!(valid_sid("S-1-5-21-123-456-789-1001"));
    assert!(!valid_sid("S-1-5-21)(A;;GA;;;WD)"));
    assert!(!valid_sid("S-1-"));
}

#[test]
fn rejects_oversized_incoming_frames_before_allocating() {
    assert!(frame_length((MAX_FRAME as u32 + 1).to_be_bytes()).is_err());
}

#[test]
fn sid_fields_are_digit_runs_and_the_text_is_bounded() {
    assert!(valid_sid("S-1-5-18"));
    assert!(!valid_sid("s-1-5-18"));
    assert!(!valid_sid("S-1-5--18"));
    assert!(!valid_sid("S-1-5-18-"));
    assert!(!valid_sid("S-1-5-1a"));
    let long = format!("S-1-{}", "1".repeat(179));
    assert_eq!(long.len(), 183);
    assert!(valid_sid(&long));
    let too_long = format!("S-1-{}", "1".repeat(180));
    assert!(!valid_sid(&too_long));
}

#[test]
fn frames_carry_their_length_big_endian() {
    let frame = encode_frame(b"hello").unwrap();
    assert_eq!(frame, vec![0, 0, 0, 5, b'h', b'e', b'l', b'l', b'o']);
    let header = [frame[0], frame[1], frame[2], frame[3]];
    assert_eq!(frame_length(header), Ok(5));
    let big = vec![7u8; MAX_FRAME];
    let frame = encode_frame(&big).unwrap();
    assert_eq!(&frame[..4], &[0, 1, 0, 0]);
    assert_eq!(frame_length([0, 1, 0, 0]), Ok(MAX_FRAME));
    assert_eq!(encode_frame(&vec![0u8; MAX_FRAME + 1]), Err("IPC frame too large".to_owned()));
    assert_eq!(frame_length([0xff, 0, 0, 0]), Err("IPC frame too large".to_owned()));
}

#[test]
fn wide_strings_end_in_nul() {
    assert_eq!(wide("ab"), vec![97, 98, 0]);
    assert_eq!(wide("😀"), vec![0xD83D, 0xDE00, 0]);
    assert_eq!(wide_multi(&["Tcpip", "Nla"]), {
        let mut v: Vec<u16> = "Tcpip".encode_utf16().collect();
        v.push(0);
        v.extend("Nla".encode_utf16());
        v.push(0);
        v.push(0);
        v
    });
}

#[test]
fn pipe_security_grants_the_user_read_access_only() {
    assert_eq!(
        pipe_security("S-1-5-21-1-2-3-1001"),
        Ok("D:P(A;;GA;;;SY)(A;;GA;;;BA)(A;;GR;;;S-1-5-21-1-2-3-1001)".to_owned())
    );
    assert_eq!(pipe_security("S-1-5-21)(A;;GA;;;WD)"), Err("invalid user SID".to_owned()));
}
