use libguestfs::decode::{count_strings, decode_c_string, decode_string_list, NativeBuf, ReleaseLog};
use libguestfs::stat::{decode_stat, StatNS};

fn buf(id: u64, bytes: &[u8]) -> NativeBuf {
    NativeBuf {
        id,
        bytes: bytes.to_vec(),
    }
}

#[test]
fn test_decode_string() {
    let mut log = ReleaseLog::new();
    let s = decode_c_string(&buf(7, b"/dev/sda"), &mut log).unwrap();
    assert_eq!(s, "/dev/sda");
    assert_eq!(log.ids().as_slice(), &[7]);
}

#[test]
fn test_decode_string_multibyte() {
    // a decoded string is the decoding of the bytes, not the bytes themselves
    let mut log = ReleaseLog::new();
    let s = decode_c_string(&buf(1, &[0xC3, 0xA9]), &mut log).unwrap();
    assert_eq!(s, "\u{e9}");
    assert_eq!(s.len(), 2);
    assert_eq!(s.chars().count(), 1);
}

#[test]
fn test_decode_string_invalid_utf8_still_released() {
    let mut log = ReleaseLog::new();
    let r = decode_c_string(&buf(9, &[0xFF, 0xFE]), &mut log);
    match r {
        Err(e) => assert!(e.is_decoding()),
        Ok(_) => panic!("invalid UTF-8 must fail"),
    }
    assert_eq!(log.ids().as_slice(), &[9]);
}

#[test]
fn test_decode_array_empty() {
    // an empty, freshly formatted image has no partitions: the engine
    // returns an array whose first entry is already the NULL terminator
    let mut log = ReleaseLog::new();
    let entries: Vec<Option<NativeBuf>> = vec![None];
    let v = decode_string_list(50, &entries, &mut log).unwrap();
    assert_eq!(v.len(), 0);
    assert_eq!(log.ids().as_slice(), &[50]);
}

#[test]
fn test_decode_array_one() {
    let mut log = ReleaseLog::new();
    let entries = vec![Some(buf(1, b"extlinux")), None];
    let v = decode_string_list(50, &entries, &mut log).unwrap();
    assert_eq!(v, vec!["extlinux".to_string()]);
    // exactly N + 1 releases: the entry, then the array buffer
    assert_eq!(log.ids().as_slice(), &[1, 50]);
}

#[test]
fn test_decode_array_many_in_order() {
    // the filesystem list of a freshly formatted ext4 image: one
    // device/type pair, in array order
    let mut log = ReleaseLog::new();
    let entries = vec![Some(buf(1, b"/dev/sda")), Some(buf(2, b"ext4")), None];
    let v = decode_string_list(50, &entries, &mut log).unwrap();
    assert_eq!(v.len(), 2);
    assert_eq!(v[0], "/dev/sda");
    assert_eq!(v[1], "ext4");
    assert_eq!(log.ids().as_slice(), &[1, 2, 50]);
}

#[test]
fn test_decode_array_stops_at_first_null() {
    let mut log = ReleaseLog::new();
    let entries = vec![
        Some(buf(1, b"sda1")),
        None,
        Some(buf(3, b"never dereferenced")),
    ];
    assert_eq!(count_strings(&entries), 1);
    let v = decode_string_list(50, &entries, &mut log).unwrap();
    assert_eq!(v, vec!["sda1".to_string()]);
    assert_eq!(log.ids().as_slice(), &[1, 50]);
}

#[test]
fn test_decode_array_failure_releases_everything() {
    // one element is not valid text: the whole operation fails, but every
    // buffer taken over — all three entries and the array — is released
    let mut log = ReleaseLog::new();
    let entries = vec![
        Some(buf(1, b"good")),
        Some(buf(2, &[0xFF])),
        Some(buf(3, b"also good")),
        None,
    ];
    let r = decode_string_list(50, &entries, &mut log);
    match r {
        Err(e) => assert!(e.is_decoding()),
        Ok(_) => panic!("a failing element must fail the operation"),
    }
    assert_eq!(log.ids().as_slice(), &[1, 2, 3, 50]);
}

#[test]
fn test_count_strings() {
    let no_entries: Vec<Option<NativeBuf>> = vec![None];
    assert_eq!(count_strings(&no_entries), 0);
    let two = vec![Some(buf(1, b"a")), Some(buf(2, b"b")), None];
    assert_eq!(count_strings(&two), 2);
}

#[test]
fn test_decode_stat_copies_fields() {
    let mut log = ReleaseLog::new();
    let mut fields: Vec<i64> = (0..22).map(|i| 100 + i as i64).collect();
    fields[2] = 0o100777; // mode: regular-file bits ORed with 0o777
    fields[4] = 1000; // uid
    fields[5] = 1000; // gid
    let s = decode_stat(77, &fields, &mut log);
    assert_eq!(s.st_dev, 100);
    assert_eq!(s.st_ino, 101);
    assert_eq!(s.st_mode, 0o100777);
    assert_eq!(s.st_nlink, 103);
    assert_eq!(s.st_uid, 1000);
    assert_eq!(s.st_gid, 1000);
    assert_eq!(s.st_rdev, 106);
    assert_eq!(s.st_size, 107);
    assert_eq!(s.st_blksize, 108);
    assert_eq!(s.st_blocks, 109);
    assert_eq!(s.st_atime_sec, 110);
    assert_eq!(s.st_atime_nsec, 111);
    assert_eq!(s.st_mtime_sec, 112);
    assert_eq!(s.st_mtime_nsec, 113);
    assert_eq!(s.st_ctime_sec, 114);
    assert_eq!(s.st_ctime_nsec, 115);
    assert_eq!(s.st_spare1, 116);
    assert_eq!(s.st_spare6, 121);
    assert_eq!(log.ids().as_slice(), &[77]);
}

#[test]
fn test_statns_equality() {
    let fields: Vec<i64> = vec![0; 22];
    let a = StatNS::new(&fields);
    let b = StatNS::new(&fields);
    assert_eq!(a, b);
}
