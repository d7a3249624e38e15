use helix_ios::crlf::crlf_encode;
use helix_ios::text::{decimal_bytes, parse_u32};

#[test]
fn lone_line_feeds_get_a_carriage_return() {
    assert_eq!(crlf_encode(b"a\nb\r\nc\n"), b"a\r\nb\r\nc\r\n".to_vec());
    assert_eq!(crlf_encode(b"\n\n"), b"\r\n\r\n".to_vec());
    assert_eq!(crlf_encode(b""), Vec::<u8>::new());
    assert_eq!(crlf_encode(b"\r"), b"\r".to_vec());
    assert_eq!(crlf_encode(b"\r\r\n\n"), b"\r\r\n\r\n".to_vec());
}

#[test]
fn crlf_encoding_is_idempotent() {
    let inputs: [&[u8]; 4] = [b"x\ny\n", b"\r\n\n\r", b"plain", b"\n\r\n\n"];
    for input in inputs {
        let once = crlf_encode(input);
        assert_eq!(crlf_encode(&once), once);
        for (i, &b) in once.iter().enumerate() {
            if b == b'\n' {
                assert!(i > 0 && once[i - 1] == b'\r');
            }
        }
    }
}

#[test]
fn decimal_digits() {
    assert_eq!(decimal_bytes(0), b"0".to_vec());
    assert_eq!(decimal_bytes(29), b"29".to_vec());
    assert_eq!(decimal_bytes(u64::MAX), u64::MAX.to_string().into_bytes());
}

#[test]
fn parse_u32_agrees_with_the_standard_library() {
    let cases: [&str; 12] = [
        "0", "+7", "007", "4294967295", "4294967296", "", "+", "-1", " 1", "1a", "99999999999", "+0",
    ];
    for case in cases {
        assert_eq!(parse_u32(case.as_bytes()), case.parse::<u32>().ok(), "{case:?}");
    }
}

#[test]
fn parse_u32_reads_back_decimal() {
    for n in [0u32, 1, 9, 10, 12345, u32::MAX] {
        assert_eq!(parse_u32(&decimal_bytes(n as u64)), Some(n));
    }
}
