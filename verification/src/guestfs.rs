//! The engine session: handle state machine and operation catalog.
//!
//! A [`GuestFS`] value models one engine instance from the host side: the
//! one-shot launch guard and the ordered list of drives registered before
//! launch (their order determines guest device naming). Each wrapper
//! operation of the binding has a method here that checks the lifecycle,
//! encodes its path arguments and returns the [`NativeCall`] to issue — or
//! the structured error, with the state untouched and no native call made.
//! The owner of the native handle performs the returned call synchronously,
//! checks the operation's failure sentinel (see [`status_failed`],
//! [`ro_flag_result`], [`size_result`]), and routes the outcome through the
//! decoders in [`crate::decode`] and [`crate::stat`] or through
//! [`crate::error::translate_failure`].

use crate::error::LibGuestFsError;
use crate::path::{encode_guest, encode_host, nul_free, NativeString, PathDomain};
use vstd::prelude::*;

verus! {

/// One call into the engine, with every path argument already encoded and
/// domain-checked. The variants mirror the native call table.
#[derive(Debug)]
pub enum NativeCall {
    /// Attach a disk image, writable unless `readonly`.
    AddDrive {
        /// Resolved host path of the image.
        drive: NativeString,
        /// Attach read-only.
        readonly: bool,
    },
    /// List the optional engine feature groups that are available.
    AvailableAllGroups,
    /// Write the content of a base64-encoded host file to a guest path.
    Base64In {
        /// Host file holding base64-encoded content.
        base64file: NativeString,
        /// Guest path to write the decoded content to.
        filename: NativeString,
    },
    /// Read a guest file back as base64 into a host file.
    Base64Out {
        /// Guest path to read.
        filename: NativeString,
        /// Host file to write the base64-encoded content to.
        base64file: NativeString,
    },
    /// Query whether a block device is read-only.
    BlockdevGetro {
        /// Guest block device.
        device: NativeString,
    },
    /// Query a block device's size in bytes.
    BlockdevGetsize64 {
        /// Guest block device.
        device: NativeString,
    },
    /// Make the kernel reread a block device's partition table.
    BlockdevRereadpt {
        /// Guest block device.
        device: NativeString,
    },
    /// Set a block device read-only.
    BlockdevSetro {
        /// Guest block device.
        device: NativeString,
    },
    /// Set a block device read-write.
    BlockdevSetrw {
        /// Guest block device.
        device: NativeString,
    },
    /// Change a guest file's permission bits.
    Chmod {
        /// New mode bits.
        mode: i32,
        /// Guest path.
        path: NativeString,
    },
    /// Change a guest file's owner and group.
    Chown {
        /// New owning user id.
        owner: i32,
        /// New owning group id.
        group: i32,
        /// Guest path.
        path: NativeString,
    },
    /// Run a command inside the appliance.
    Command {
        /// Command and arguments, each a native string.
        args: Vec<NativeString>,
    },
    /// Boot the appliance.
    Launch,
    /// List the partitions the engine found.
    ListPartitions,
    /// List device/filesystem-type pairs the engine found.
    ListFilesystems,
    /// Create an ext-family filesystem on a device; the engine-specific
    /// option bundle travels next to this request, assembled by the handle
    /// owner.
    Mke2fs {
        /// Guest block device.
        device: NativeString,
    },
    /// Mount a mountable on a guest mountpoint.
    Mount {
        /// Guest device or other mountable.
        mountable: NativeString,
        /// Guest mountpoint.
        mountpoint: NativeString,
    },
    /// Query a guest path's extended stat record.
    Statns {
        /// Guest path.
        path: NativeString,
    },
    /// Create an empty guest file, or update its timestamps.
    Touch {
        /// Guest path.
        path: NativeString,
    },
}

/// True when a status-returning native call signaled failure: the failure
/// sentinel of every status-shaped operation is a negative status.
pub fn status_failed(status: i32) -> (r: bool)
    ensures
        r == (status < 0),
{
    status < 0
}

/// Interprets the read-only query's return value: negative is the failure
/// sentinel (consult the last-error state); otherwise the engine answered,
/// nonzero meaning read-only.
pub fn ro_flag_result(status: i32) -> (r: Option<bool>)
    ensures
        r == (if status < 0 {
            Option::<bool>::None
        } else {
            Option::Some(status != 0)
        }),
{
    if status < 0 {
        None
    } else {
        Some(status != 0)
    }
}

/// Interprets the size query's return value: negative is the failure
/// sentinel (consult the last-error state); otherwise it is the size.
pub fn size_result(size: i64) -> (r: Option<i64>)
    ensures
        r == (if size < 0 {
            Option::<i64>::None
        } else {
            Option::Some(size)
        }),
{
    if size < 0 {
        None
    } else {
        Some(size)
    }
}

fn copy_bytes(v: &Vec<u8>) -> (r: Vec<u8>)
    ensures
        r@ == v@,
{
    let mut out: Vec<u8> = Vec::new();
    let mut i: usize = 0;
    while i < v.len()
        invariant
            i <= v@.len(),
            out@ == v@.take(i as int),
        decreases v@.len() - i,
    {
        out.push(v[i]);
        i += 1;
    }
    proof {
        assert(out@ =~= v@);
    }
    out
}

/// One engine session as seen from the host: the launch-once guard and the
/// drives registered so far. The native handle itself lives with the caller;
/// this state decides, before any native call, whether an operation may be
/// issued and exactly which encoded call to issue.
#[derive(Debug)]
pub struct GuestFS {
    launched: bool,
    drives: Vec<Vec<u8>>,
}

/// The session state after a successful launch: launched, drives unchanged.
pub closed spec fn after_launch(g: GuestFS) -> GuestFS {
    GuestFS { launched: true, ..g }
}

impl GuestFS {
    /// True once the appliance was launched; launching is the only
    /// transition and happens at most once.
    pub closed spec fn is_launched(&self) -> bool {
        self.launched
    }

    /// The host paths of the registered drives, in registration order. The
    /// order determines guest device naming: the first drive becomes the
    /// first guest device.
    pub closed spec fn drive_list(&self) -> Seq<Seq<u8>> {
        Seq::new(self.drives@.len(), |i: int| self.drives@[i]@)
    }

    /// A fresh, unlaunched session with no drives registered.
    pub fn new() -> (g: GuestFS)
        ensures
            !g.is_launched(),
            g.drive_list() == Seq::<Seq<u8>>::empty(),
    {
        let g = GuestFS { launched: false, drives: Vec::new() };
        proof {
            assert(g.drive_list() =~= Seq::<Seq<u8>>::empty());
        }
        g
    }

    /// True once the appliance was launched.
    pub fn launched(&self) -> (r: bool)
        ensures
            r == self.is_launched(),
    {
        self.launched
    }

    /// Requests the launch of the appliance. Valid once per session: a
    /// second attempt is rejected with the lifecycle error before any native
    /// call, leaving the session — and thereby the outcome of the first
    /// launch — untouched.
    pub fn launch(&mut self) -> (r: Result<NativeCall, LibGuestFsError>)
        ensures
            !old(self).is_launched() ==> (r matches Ok(c) && c == NativeCall::Launch)
                && *final(self) == after_launch(*old(self)) && final(self).is_launched()
                && final(self).drive_list() == old(self).drive_list(),
            old(self).is_launched() ==> (r matches Err(e) && e is Lifecycle) && *final(self)
                == *old(self),
    {
        if self.launched {
            return Err(LibGuestFsError::Lifecycle);
        }
        self.launched = true;
        Ok(NativeCall::Launch)
    }

    fn add_drive_request(&mut self, drive: &Vec<u8>, readonly: bool) -> (r: Result<
        NativeCall,
        LibGuestFsError,
    >)
        ensures
            (r is Ok) <==> nul_free(drive@),
            (r matches Ok(c) ==> (c matches NativeCall::AddDrive { drive: d, readonly: ro } && d@
                == drive@ && d.dom() == PathDomain::Host && ro == readonly)),
            (r matches Ok(c) ==> final(self).drive_list() == old(self).drive_list().push(drive@)
                && final(self).is_launched() == old(self).is_launched()),
            (r matches Err(e) ==> e is PathEncoding && *final(self) == *old(self)),
    {
        match encode_host(drive) {
            Ok(encoded) => {
                self.drives.push(copy_bytes(drive));
                proof {
                    assert(self.drive_list() =~= old(self).drive_list().push(drive@));
                }
                Ok(NativeCall::AddDrive { drive: encoded, readonly })
            },
            Err(e) => Err(e),
        }
    }

    /// Registers a disk image, to attach writable. `drive` is the image's
    /// host path, already resolved against the host filesystem by the
    /// caller.
    pub fn add_drive(&mut self, drive: &Vec<u8>) -> (r: Result<NativeCall, LibGuestFsError>)
        ensures
            (r is Ok) <==> nul_free(drive@),
            (r matches Ok(c) ==> (c matches NativeCall::AddDrive { drive: d, readonly: ro } && d@
                == drive@ && d.dom() == PathDomain::Host && ro == false)),
            (r matches Ok(c) ==> final(self).drive_list() == old(self).drive_list().push(drive@)
                && final(self).is_launched() == old(self).is_launched()),
            (r matches Err(e) ==> e is PathEncoding && *final(self) == *old(self)),
    {
        self.add_drive_request(drive, false)
    }

    /// Registers a disk image, to attach read-only. `drive` is the image's
    /// host path, already resolved against the host filesystem by the
    /// caller.
    pub fn add_drive_ro(&mut self, drive: &Vec<u8>) -> (r: Result<NativeCall, LibGuestFsError>)
        ensures
            (r is Ok) <==> nul_free(drive@),
            (r matches Ok(c) ==> (c matches NativeCall::AddDrive { drive: d, readonly: ro } && d@
                == drive@ && d.dom() == PathDomain::Host && ro == true)),
            (r matches Ok(c) ==> final(self).drive_list() == old(self).drive_list().push(drive@)
                && final(self).is_launched() == old(self).is_launched()),
            (r matches Err(e) ==> e is PathEncoding && *final(self) == *old(self)),
    {
        self.add_drive_request(drive, true)
    }

    /// Requests the list of available optional feature groups. The result
    /// arrives as a NULL-terminated string array; a NULL array pointer is
    /// the failure sentinel.
    pub fn available_all_groups(&self) -> (c: NativeCall)
        ensures
            c == NativeCall::AvailableAllGroups,
    {
        NativeCall::AvailableAllGroups
    }

    /// Requests writing base64-encoded content from the host file
    /// `base64file` (a resolved host path) to the guest path `filename`.
    pub fn base64_in(&self, base64file: &Vec<u8>, filename: &Vec<u8>) -> (r: Result<
        NativeCall,
        LibGuestFsError,
    >)
        ensures
            (r is Ok) <==> nul_free(base64file@) && nul_free(filename@),
            (r matches Ok(c) ==> (c matches NativeCall::Base64In { base64file: b, filename: f }
                && b@ == base64file@ && b.dom() == PathDomain::Host && f@ == filename@ && f.dom()
                == PathDomain::Guest)),
            (r matches Err(e) ==> e is PathEncoding),
    {
        let b = encode_host(base64file)?;
        let f = encode_guest(filename)?;
        Ok(NativeCall::Base64In { base64file: b, filename: f })
    }

    /// Requests reading the guest path `filename` back as base64 into the
    /// host file `base64file` (a resolved host path).
    pub fn base64_out(&self, filename: &Vec<u8>, base64file: &Vec<u8>) -> (r: Result<
        NativeCall,
        LibGuestFsError,
    >)
        ensures
            (r is Ok) <==> nul_free(filename@) && nul_free(base64file@),
            (r matches Ok(c) ==> (c matches NativeCall::Base64Out { filename: f, base64file: b }
                && f@ == filename@ && f.dom() == PathDomain::Guest && b@ == base64file@ && b.dom()
                == PathDomain::Host)),
            (r matches Err(e) ==> e is PathEncoding),
    {
        let f = encode_guest(filename)?;
        let b = encode_host(base64file)?;
        Ok(NativeCall::Base64Out { filename: f, base64file: b })
    }

    /// Requests the read-only query for a guest block device; interpret the
    /// returned status with [`ro_flag_result`].
    pub fn blockdev_getro(&self, device: &Vec<u8>) -> (r: Result<NativeCall, LibGuestFsError>)
        ensures
            (r is Ok) <==> nul_free(device@),
            (r matches Ok(c) ==> (c matches NativeCall::BlockdevGetro { device: d } && d@
                == device@ && d.dom() == PathDomain::Guest)),
            (r matches Err(e) ==> e is PathEncoding),
    {
        let d = encode_guest(device)?;
        Ok(NativeCall::BlockdevGetro { device: d })
    }

    /// Requests the size query for a guest block device; interpret the
    /// returned value with [`size_result`].
    pub fn blockdev_getsize64(&self, device: &Vec<u8>) -> (r: Result<NativeCall, LibGuestFsError>)
        ensures
            (r is Ok) <==> nul_free(device@),
            (r matches Ok(c) ==> (c matches NativeCall::BlockdevGetsize64 { device: d } && d@
                == device@ && d.dom() == PathDomain::Guest)),
            (r matches Err(e) ==> e is PathEncoding),
    {
        let d = encode_guest(device)?;
        Ok(NativeCall::BlockdevGetsize64 { device: d })
    }

    /// Requests rereading a guest block device's partition table.
    pub fn blockdev_rereadpt(&self, device: &Vec<u8>) -> (r: Result<NativeCall, LibGuestFsError>)
        ensures
            (r is Ok) <==> nul_free(device@),
            (r matches Ok(c) ==> (c matches NativeCall::BlockdevRereadpt { device: d } && d@
                == device@ && d.dom() == PathDomain::Guest)),
            (r matches Err(e) ==> e is PathEncoding),
    {
        let d = encode_guest(device)?;
        Ok(NativeCall::BlockdevRereadpt { device: d })
    }

    /// Requests setting a guest block device read-only.
    pub fn blockdev_setro(&self, device: &Vec<u8>) -> (r: Result<NativeCall, LibGuestFsError>)
        ensures
            (r is Ok) <==> nul_free(device@),
            (r matches Ok(c) ==> (c matches NativeCall::BlockdevSetro { device: d } && d@
                == device@ && d.dom() == PathDomain::Guest)),
            (r matches Err(e) ==> e is PathEncoding),
    {
        let d = encode_guest(device)?;
        Ok(NativeCall::BlockdevSetro { device: d })
    }

    /// Requests setting a guest block device read-write.
    pub fn blockdev_setrw(&self, device: &Vec<u8>) -> (r: Result<NativeCall, LibGuestFsError>)
        ensures
            (r is Ok) <==> nul_free(device@),
            (r matches Ok(c) ==> (c matches NativeCall::BlockdevSetrw { device: d } && d@
                == device@ && d.dom() == PathDomain::Guest)),
            (r matches Err(e) ==> e is PathEncoding),
    {
        let d = encode_guest(device)?;
        Ok(NativeCall::BlockdevSetrw { device: d })
    }

    /// Requests changing the permission bits of the guest path `path` to
    /// `mode`.
    pub fn chmod(&self, mode: i32, path: &Vec<u8>) -> (r: Result<NativeCall, LibGuestFsError>)
        ensures
            (r is Ok) <==> nul_free(path@),
            (r matches Ok(c) ==> (c matches NativeCall::Chmod { mode: m, path: p } && m == mode
                && p@ == path@ && p.dom() == PathDomain::Guest)),
            (r matches Err(e) ==> e is PathEncoding),
    {
        let p = encode_guest(path)?;
        Ok(NativeCall::Chmod { mode, path: p })
    }

    /// Requests changing the owner and group of the guest path `path`.
    pub fn chown(&self, owner: i32, group: i32, path: &Vec<u8>) -> (r: Result<
        NativeCall,
        LibGuestFsError,
    >)
        ensures
            (r is Ok) <==> nul_free(path@),
            (r matches Ok(c) ==> (c matches NativeCall::Chown { owner: o, group: g, path: p } && o
                == owner && g == group && p@ == path@ && p.dom() == PathDomain::Guest)),
            (r matches Err(e) ==> e is PathEncoding),
    {
        let p = encode_guest(path)?;
        Ok(NativeCall::Chown { owner, group, path: p })
    }

    /// Requests running a command inside the appliance. Every argument is
    /// encoded as a native string; the result arrives as one native string,
    /// with a NULL pointer as the failure sentinel.
    pub fn command(&self, arguments: &Vec<Vec<u8>>) -> (r: Result<NativeCall, LibGuestFsError>)
        ensures
            (r is Ok) <==> (forall|i: int| 0 <= i < arguments@.len() ==> nul_free(arguments@[i]@)),
            (r matches Ok(c) ==> (c matches NativeCall::Command { args: a } && a@.len()
                == arguments@.len() && (forall|i: int|
                0 <= i < arguments@.len() ==> a@[i]@ == arguments@[i]@ && a@[i].dom()
                    == PathDomain::Host))),
            (r matches Err(e) ==> e is PathEncoding),
    {
        let mut args: Vec<NativeString> = Vec::new();
        let mut i: usize = 0;
        while i < arguments.len()
            invariant
                i <= arguments@.len(),
                args@.len() == i,
                forall|j: int|
                    0 <= j < i ==> args@[j]@ == arguments@[j]@ && args@[j].dom()
                        == PathDomain::Host && nul_free(arguments@[j]@),
            decreases arguments@.len() - i,
        {
            match encode_host(&arguments[i]) {
                Ok(a) => {
                    args.push(a);
                },
                Err(e) => {
                    return Err(e);
                },
            }
            i += 1;
        }
        Ok(NativeCall::Command { args })
    }

    /// Requests the partition list. The result arrives as a NULL-terminated
    /// string array; a NULL array pointer is the failure sentinel.
    pub fn list_partitions(&self) -> (c: NativeCall)
        ensures
            c == NativeCall::ListPartitions,
    {
        NativeCall::ListPartitions
    }

    /// Requests the filesystem list: pairs of device and filesystem type,
    /// flattened in the returned string array. A NULL array pointer is the
    /// failure sentinel.
    pub fn list_filesystems(&self) -> (c: NativeCall)
        ensures
            c == NativeCall::ListFilesystems,
    {
        NativeCall::ListFilesystems
    }

    /// Requests creating an ext-family filesystem on a guest device. The
    /// engine's optional-argument bundle is a native struct the handle owner
    /// assembles and passes alongside this request.
    pub fn mke2fs_argv(&self, device: &Vec<u8>) -> (r: Result<NativeCall, LibGuestFsError>)
        ensures
            (r is Ok) <==> nul_free(device@),
            (r matches Ok(c) ==> (c matches NativeCall::Mke2fs { device: d } && d@ == device@
                && d.dom() == PathDomain::Guest)),
            (r matches Err(e) ==> e is PathEncoding),
    {
        let d = encode_guest(device)?;
        Ok(NativeCall::Mke2fs { device: d })
    }

    /// Requests mounting a guest mountable on a guest mountpoint.
    pub fn mount(&self, mountable: &Vec<u8>, mountpoint: &Vec<u8>) -> (r: Result<
        NativeCall,
        LibGuestFsError,
    >)
        ensures
            (r is Ok) <==> nul_free(mountable@) && nul_free(mountpoint@),
            (r matches Ok(c) ==> (c matches NativeCall::Mount { mountable: m, mountpoint: p } && m@
                == mountable@ && m.dom() == PathDomain::Guest && p@ == mountpoint@ && p.dom()
                == PathDomain::Guest)),
            (r matches Err(e) ==> e is PathEncoding),
    {
        let m = encode_guest(mountable)?;
        let p = encode_guest(mountpoint)?;
        Ok(NativeCall::Mount { mountable: m, mountpoint: p })
    }

    /// Requests the extended stat record of a guest path. The result arrives
    /// as one fixed-layout native struct; a NULL struct pointer is the
    /// failure sentinel.
    pub fn statns(&self, path: &Vec<u8>) -> (r: Result<NativeCall, LibGuestFsError>)
        ensures
            (r is Ok) <==> nul_free(path@),
            (r matches Ok(c) ==> (c matches NativeCall::Statns { path: p } && p@ == path@
                && p.dom() == PathDomain::Guest)),
            (r matches Err(e) ==> e is PathEncoding),
    {
        let p = encode_guest(path)?;
        Ok(NativeCall::Statns { path: p })
    }

    /// Requests creating an empty file at the guest path `path`, or
    /// updating its timestamps if it exists.
    pub fn touch(&self, path: &Vec<u8>) -> (r: Result<NativeCall, LibGuestFsError>)
        ensures
            (r is Ok) <==> nul_free(path@),
            (r matches Ok(c) ==> (c matches NativeCall::Touch { path: p } && p@ == path@ && p.dom()
                == PathDomain::Guest)),
            (r matches Err(e) ==> e is PathEncoding),
    {
        let p = encode_guest(path)?;
        Ok(NativeCall::Touch { path: p })
    }
}

/// Law: launching is one-shot. From any session state, the state after a
/// successful launch is launched — so [`GuestFS::launch`]'s contract forces
/// a second attempt to return the lifecycle error and leave the session
/// unchanged, not altering the outcome of the first launch — and launching
/// preserves the registered drives.
pub proof fn lemma_launch_once(g: GuestFS)
    ensures
        after_launch(g).is_launched(),
        after_launch(g).drive_list() == g.drive_list(),
{
}

} // verus!
