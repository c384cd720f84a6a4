use libguestfs::guestfs::{GuestFS, NativeCall};

#[test]
fn test_launch_twice() {
    let mut g = GuestFS::new();
    assert!(!g.launched());
    let first = g.launch();
    let first_was_launch = matches!(first, Ok(NativeCall::Launch));
    assert!(first_was_launch);
    assert!(g.launched());
    let second = g.launch();
    match second {
        Err(e) => assert!(e.is_lifecycle()),
        Ok(_) => panic!("second launch must be rejected"),
    }
    // the rejected attempt does not alter the outcome of the first launch
    assert!(first_was_launch);
    assert!(g.launched());
}

#[test]
fn test_add_drive_requests() {
    let mut g = GuestFS::new();
    let rw = g.add_drive(&b"/tmp/disk.img".to_vec()).unwrap();
    match rw {
        NativeCall::AddDrive { drive, readonly } => {
            assert_eq!(drive.raw_bytes().as_slice(), b"/tmp/disk.img\0");
            assert!(!readonly);
        }
        _ => panic!("wrong request"),
    }
    let ro = g.add_drive_ro(&b"/tmp/other.img".to_vec()).unwrap();
    match ro {
        NativeCall::AddDrive { drive, readonly } => {
            assert_eq!(drive.raw_bytes().as_slice(), b"/tmp/other.img\0");
            assert!(readonly);
        }
        _ => panic!("wrong request"),
    }
}

#[test]
fn test_add_drive_embedded_nul() {
    let mut g = GuestFS::new();
    let r = g.add_drive(&b"/tmp/di\0sk.img".to_vec());
    match r {
        Err(e) => assert!(e.is_path_encoding()),
        Ok(_) => panic!("an embedded NUL must be rejected"),
    }
}

#[test]
fn test_launch_after_drives() {
    let mut g = GuestFS::new();
    g.add_drive(&b"/tmp/disk.img".to_vec()).unwrap();
    let r = g.launch();
    assert!(matches!(r, Ok(NativeCall::Launch)));
    let again = g.launch();
    assert!(again.is_err());
}
