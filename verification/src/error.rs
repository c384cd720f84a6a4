//! Structured errors surfaced by the marshaling layer, and the translation
//! of sentinel-signaled native failures into them.

use crate::decode::{decode_c_string, NativeBuf, ReleaseLog};
use vstd::prelude::*;
use vstd::utf8::{decode_first_scalar, decode_utf8, pop_first_scalar, valid_utf8};

verus! {

/// Every failure a wrapper operation can surface.
///
/// The first three kinds are detected locally, before or after the native
/// call, without consulting the engine; `NativeOperation` carries what the
/// engine's per-handle last-error state reported about a failing call.
#[derive(Debug)]
pub enum LibGuestFsError {
    /// An invalid state transition (a second launch attempt), rejected
    /// before any native call is made.
    Lifecycle,
    /// A path could not be encoded as a native string: host-path resolution
    /// failed, or the byte sequence contains an embedded NUL terminator.
    PathEncoding,
    /// A native-returned byte sequence is not valid UTF-8.
    Decoding,
    /// The native call reported failure through its sentinel; `errno` and
    /// `message` come from the handle's last-error state.
    NativeOperation { errno: i32, message: String },
}

impl LibGuestFsError {
    /// True when the error is the lifecycle violation.
    pub fn is_lifecycle(&self) -> (r: bool)
        ensures
            r == (*self is Lifecycle),
    {
        match self {
            LibGuestFsError::Lifecycle => true,
            _ => false,
        }
    }

    /// True when the error is a path-encoding failure.
    pub fn is_path_encoding(&self) -> (r: bool)
        ensures
            r == (*self is PathEncoding),
    {
        match self {
            LibGuestFsError::PathEncoding => true,
            _ => false,
        }
    }

    /// True when the error is a decoding failure.
    pub fn is_decoding(&self) -> (r: bool)
        ensures
            r == (*self is Decoding),
    {
        match self {
            LibGuestFsError::Decoding => true,
            _ => false,
        }
    }

    /// The native errno, when the engine reported the failure.
    pub fn errno(&self) -> (r: Option<i32>)
        ensures
            (*self matches LibGuestFsError::NativeOperation { errno, .. } ==> r == Some(errno)),
            !(*self is NativeOperation) ==> r is None,
    {
        match self {
            LibGuestFsError::NativeOperation { errno, .. } => Some(*errno),
            _ => None,
        }
    }

    /// The engine's error message, when the engine reported the failure.
    pub fn native_message(&self) -> (r: Option<&String>)
        ensures
            (*self matches LibGuestFsError::NativeOperation { message, .. } ==> (r matches Some(m)
                && *m == message)),
            !(*self is NativeOperation) ==> r is None,
    {
        match self {
            LibGuestFsError::NativeOperation { message, .. } => Some(message),
            _ => None,
        }
    }
}

/// True when `e` is the translation of a failing native call whose
/// last-error state held `errno` and the message bytes `msg`.
pub open spec fn translates_native_failure(errno: i32, msg: Seq<u8>, e: LibGuestFsError) -> bool {
    e matches LibGuestFsError::NativeOperation { errno: en, message: m } && en == errno && m@
        == decode_utf8(msg)
}

/// True when `e` carries what a signaled native failure must carry: the
/// native-operation kind, a nonzero errno and a non-empty message.
pub open spec fn reports_native_failure(e: LibGuestFsError) -> bool {
    e matches LibGuestFsError::NativeOperation { errno, message } && errno != 0 && message@.len()
        > 0
}

/// Translates a native failure, detected through an operation's sentinel,
/// into a structured error.
///
/// `errno` and `message` are the handle's last-error state, queried
/// immediately after the failing call and before any other operation on the
/// same handle (the next call overwrites them). The native message buffer is
/// recorded for release whatever the outcome; when its bytes are not valid
/// UTF-8 the decoding error is surfaced instead.
pub fn translate_failure(errno: i32, message: &NativeBuf, log: &mut ReleaseLog) -> (e:
    LibGuestFsError)
    ensures
        final(log)@ == old(log)@.push(message.id),
        valid_utf8(message.bytes@) ==> translates_native_failure(errno, message.bytes@, e),
        !valid_utf8(message.bytes@) ==> e is Decoding,
{
    match decode_c_string(message, log) {
        Ok(m) => LibGuestFsError::NativeOperation { errno, message: m },
        Err(e) => e,
    }
}

/// Law: a native call that signals failure surfaces as a native-operation
/// error whose errno is nonzero and whose message is non-empty, with the
/// message buffer released rather than leaked.
///
/// [`translate_failure`] already ensures that the message buffer is recorded
/// for release and that, for a well-encoded message, the produced error
/// satisfies [`translates_native_failure`]. This law closes the gap: when
/// the engine's last-error state holds a nonzero errno and a non-empty,
/// well-encoded message — what the engine documents for a failing call —
/// every error satisfying that translation relation reports the failure in
/// the sense of [`reports_native_failure`].
pub proof fn lemma_failure_translation(errno: i32, msg: Seq<u8>, e: LibGuestFsError)
    requires
        errno != 0,
        msg.len() > 0,
        valid_utf8(msg),
        translates_native_failure(errno, msg, e),
    ensures
        reports_native_failure(e),
{
    assert(decode_utf8(msg) == seq![decode_first_scalar(msg) as char] + decode_utf8(
        pop_first_scalar(msg),
    ));
    assert(decode_utf8(msg).len() > 0);
}

} // verus!
