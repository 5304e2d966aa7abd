use mimosa::codec::{decode_utf8, decode_utf8_lossy, strip_terminator, trim_newlines};
use mimosa::error::{BackendOp, Error};

fn stripped(input: &[u8]) -> Vec<u8> {
    let mut v = input.to_vec();
    strip_terminator(&mut v);
    v
}

fn trimmed(input: &[u8]) -> Vec<u8> {
    let mut v = input.to_vec();
    trim_newlines(&mut v);
    v
}

#[test]
fn strip_terminator_cases() {
    assert_eq!(stripped(b"abc\n"), b"abc");
    assert_eq!(stripped(b"abc\r\n"), b"abc");
    assert_eq!(stripped(b"abc"), b"abc");
    assert_eq!(stripped(b"abc\n\n"), b"abc\n");
    assert_eq!(stripped(b"abc\r"), b"abc\r");
    assert_eq!(stripped(b"\n"), b"");
    assert_eq!(stripped(b""), b"");
}

#[test]
fn trim_newlines_removes_all_trailing_terminators() {
    assert_eq!(trimmed(b"abc\n"), b"abc");
    assert_eq!(trimmed(b"abc\r\n"), b"abc");
    assert_eq!(trimmed(b"abc\n\n\n"), b"abc");
    assert_eq!(trimmed(b"abc\r\r"), b"abc");
    assert_eq!(trimmed(b"abc\r\n\n"), b"abc");
    assert_eq!(trimmed(b"a\nb"), b"a\nb");
    assert_eq!(trimmed(b""), b"");
}

#[test]
fn decode_utf8_is_strict() {
    assert_eq!(decode_utf8(b"caf\xc3\xa9".to_vec()).unwrap(), "café");
    assert!(decode_utf8(vec![0xc3]).is_err());
    assert_eq!(decode_utf8(Vec::new()).unwrap(), "");
}

#[test]
fn decode_utf8_lossy_substitutes_and_is_empty_only_on_empty() {
    assert_eq!(decode_utf8_lossy(&b"plain".to_vec()), "plain");
    assert_eq!(decode_utf8_lossy(&vec![0xc3]), "\u{fffd}");
    assert_eq!(decode_utf8_lossy(&Vec::new()), "");
}

#[test]
fn error_messages_render_one_line_each() {
    assert_eq!(Error::NotFound.message(), "no matching entry found");
    assert_eq!(
        Error::FeatureUnavailable("keyutils".to_string()).message(),
        "missing feature: enable `keyutils`"
    );
    assert_eq!(
        Error::PlatformUnavailable("apple-native".to_string()).message(),
        "`apple-native` is not available on this platform"
    );
    assert_eq!(
        Error::ConfigurationError("secret-service".to_string()).message(),
        "missing `secret-service` configuration"
    );
    assert_eq!(
        Error::SpawnError("no such file".to_string()).message(),
        "cannot spawn command: no such file"
    );
    assert_eq!(Error::CommandFailure("oops".to_string()).message(), "oops");
    assert_eq!(Error::EncodingError.message(), "command output is not valid UTF-8");
    assert_eq!(
        Error::BackendError(BackendOp::GetPassword, "locked".to_string()).message(),
        "Cannot get password from keyring: locked"
    );
}
