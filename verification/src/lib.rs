//! Marshaling and lifecycle layer for a disk-image appliance engine.
//!
//! The engine itself is a native service reached over a C-style call table:
//! it boots a minimal virtual machine to inspect and manipulate disk images.
//! This crate holds the part of a binding that can be reasoned about on plain
//! values: the launch-once handle state machine, the encoding of host and
//! guest paths into NUL-terminated native strings, the decoding of native
//! results (strings, NULL-terminated string arrays, fixed-layout stat
//! records) together with an exact accounting of which native buffers must
//! be released, and the translation of sentinel-signaled failures into
//! structured errors.
//!
//! The caller that actually owns the native handle drives the engine with
//! the requests built here ([`guestfs::NativeCall`]), copies each
//! native-owned buffer into a [`decode::NativeBuf`] before handing it back,
//! and releases exactly the buffers recorded in a [`decode::ReleaseLog`],
//! using the engine's own deallocation routine.

pub mod decode;
pub mod error;
pub mod guestfs;
pub mod path;
pub mod stat;
