//! The extended stat record returned by the engine.
//!
//! The engine returns the record as a single fixed-layout native struct of
//! signed 64-bit fields. Every field is copied by value into [`StatNS`];
//! the native struct buffer is then released and never read again.

use crate::decode::ReleaseLog;
use vstd::prelude::*;

verus! {

/// Number of 64-bit fields in the engine's extended stat record.
pub const STAT_FIELD_COUNT: usize = 22;

/// An extended stat record, copied field by field out of the native struct.
#[derive(Debug, Clone, Copy, PartialEq, Eq, Structural)]
pub struct StatNS {
    /// Device number.
    pub st_dev: i64,
    /// Inode number.
    pub st_ino: i64,
    /// File mode: type bits ORed with permission bits.
    pub st_mode: i64,
    /// Number of hard links.
    pub st_nlink: i64,
    /// Owning user id.
    pub st_uid: i64,
    /// Owning group id.
    pub st_gid: i64,
    /// Device number, for device special files.
    pub st_rdev: i64,
    /// Size in bytes.
    pub st_size: i64,
    /// Preferred block size for I/O.
    pub st_blksize: i64,
    /// Number of allocated blocks.
    pub st_blocks: i64,
    /// Last access time, seconds.
    pub st_atime_sec: i64,
    /// Last access time, nanoseconds part.
    pub st_atime_nsec: i64,
    /// Last modification time, seconds.
    pub st_mtime_sec: i64,
    /// Last modification time, nanoseconds part.
    pub st_mtime_nsec: i64,
    /// Last status change time, seconds.
    pub st_ctime_sec: i64,
    /// Last status change time, nanoseconds part.
    pub st_ctime_nsec: i64,
    /// Reserved field.
    pub st_spare1: i64,
    /// Reserved field.
    pub st_spare2: i64,
    /// Reserved field.
    pub st_spare3: i64,
    /// Reserved field.
    pub st_spare4: i64,
    /// Reserved field.
    pub st_spare5: i64,
    /// Reserved field.
    pub st_spare6: i64,
}

/// The record read off the native struct's fields, in layout order.
pub open spec fn stat_from_fields(fields: Seq<i64>) -> StatNS {
    StatNS {
        st_dev: fields[0],
        st_ino: fields[1],
        st_mode: fields[2],
        st_nlink: fields[3],
        st_uid: fields[4],
        st_gid: fields[5],
        st_rdev: fields[6],
        st_size: fields[7],
        st_blksize: fields[8],
        st_blocks: fields[9],
        st_atime_sec: fields[10],
        st_atime_nsec: fields[11],
        st_mtime_sec: fields[12],
        st_mtime_nsec: fields[13],
        st_ctime_sec: fields[14],
        st_ctime_nsec: fields[15],
        st_spare1: fields[16],
        st_spare2: fields[17],
        st_spare3: fields[18],
        st_spare4: fields[19],
        st_spare5: fields[20],
        st_spare6: fields[21],
    }
}

impl StatNS {
    /// Builds the record from the native struct's fields, given in layout
    /// order as [`STAT_FIELD_COUNT`] values.
    pub fn new(fields: &Vec<i64>) -> (s: StatNS)
        requires
            fields@.len() == STAT_FIELD_COUNT,
        ensures
            s == stat_from_fields(fields@),
    {
        StatNS {
            st_dev: fields[0],
            st_ino: fields[1],
            st_mode: fields[2],
            st_nlink: fields[3],
            st_uid: fields[4],
            st_gid: fields[5],
            st_rdev: fields[6],
            st_size: fields[7],
            st_blksize: fields[8],
            st_blocks: fields[9],
            st_atime_sec: fields[10],
            st_atime_nsec: fields[11],
            st_mtime_sec: fields[12],
            st_mtime_nsec: fields[13],
            st_ctime_sec: fields[14],
            st_ctime_nsec: fields[15],
            st_spare1: fields[16],
            st_spare2: fields[17],
            st_spare3: fields[18],
            st_spare4: fields[19],
            st_spare5: fields[20],
            st_spare6: fields[21],
        }
    }
}

/// Decodes the native extended-stat struct: copies all fields into an owned
/// record and records the one struct buffer (`buf_id`) for release.
pub fn decode_stat(buf_id: u64, fields: &Vec<i64>, log: &mut ReleaseLog) -> (s: StatNS)
    requires
        fields@.len() == STAT_FIELD_COUNT,
    ensures
        final(log)@ == old(log)@.push(buf_id),
        s == stat_from_fields(fields@),
{
    let s = StatNS::new(fields);
    log.record(buf_id);
    s
}

} // verus!
