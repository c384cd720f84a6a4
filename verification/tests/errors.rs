use libguestfs::decode::{NativeBuf, ReleaseLog};
use libguestfs::error::{translate_failure, LibGuestFsError};

#[test]
fn test_translate_failure() {
    // what the engine's last-error state holds after a failing call:
    // a nonzero errno and a non-empty message
    let mut log = ReleaseLog::new();
    let message = NativeBuf {
        id: 11,
        bytes: b"No such file or directory".to_vec(),
    };
    let e = translate_failure(2, &message, &mut log);
    assert_eq!(e.errno(), Some(2));
    let text = e.native_message().expect("a native-operation error");
    assert!(!text.is_empty());
    assert_eq!(text, "No such file or directory");
    // the message buffer is released, not leaked
    assert_eq!(log.ids().as_slice(), &[11]);
}

#[test]
fn test_translate_failure_invalid_message_still_released() {
    let mut log = ReleaseLog::new();
    let message = NativeBuf {
        id: 4,
        bytes: vec![0xFF],
    };
    let e = translate_failure(2, &message, &mut log);
    assert!(e.is_decoding());
    assert_eq!(log.ids().as_slice(), &[4]);
}

#[test]
fn test_error_kind_queries() {
    let lifecycle = LibGuestFsError::Lifecycle;
    assert!(lifecycle.is_lifecycle());
    assert!(!lifecycle.is_path_encoding());
    assert!(!lifecycle.is_decoding());
    assert_eq!(lifecycle.errno(), None);
    assert!(lifecycle.native_message().is_none());

    let native = LibGuestFsError::NativeOperation {
        errno: 13,
        message: "Permission denied".to_string(),
    };
    assert!(!native.is_lifecycle());
    assert_eq!(native.errno(), Some(13));
    assert_eq!(native.native_message().unwrap(), "Permission denied");
}
