//! Encoding of host and guest paths into native strings.
//!
//! The engine takes every path argument as a NUL-terminated byte buffer, so
//! a path with an embedded NUL byte is unrepresentable and must be rejected.
//! Host paths name real files on the machine running the engine (drive
//! images, transfer files) and are resolved against the host filesystem
//! before they reach this codec; guest paths name locations inside the disk
//! image under inspection and are passed through as opaque bytes, never
//! checked against the host filesystem. The two domains are kept apart by a
//! tag carried on every encoded string, because handing a guest location to
//! a host-path parameter (or the reverse) is a correctness hazard.

use crate::error::LibGuestFsError;
use vstd::prelude::*;

verus! {

/// True when no byte of `bytes` is the NUL terminator.
pub open spec fn nul_free(bytes: Seq<u8>) -> bool {
    forall|i: int| 0 <= i < bytes.len() ==> bytes[i] != 0
}

/// Which filesystem a path is meaningful on.
#[derive(Debug, Clone, Copy, PartialEq, Eq, Structural)]
pub enum PathDomain {
    /// A path resolved against the host filesystem.
    Host,
    /// A path meaningful only inside the appliance's view of the disk image.
    Guest,
}

/// A path encoded for the native call boundary: the path's bytes followed by
/// exactly one NUL terminator, tagged with the domain it was encoded for.
///
/// Values of this type can only be made by [`encode_host`] and
/// [`encode_guest`], so holding one is evidence that the encoding rules for
/// its domain were applied.
#[derive(Debug)]
pub struct NativeString {
    domain: PathDomain,
    bytes: Vec<u8>,
}

impl NativeString {
    #[verifier::type_invariant]
    closed spec fn wf(self) -> bool {
        &&& self.bytes@.len() >= 1
        &&& self.bytes@.last() == 0u8
        &&& nul_free(self.bytes@.drop_last())
    }

    /// The path bytes, without the terminator.
    pub closed spec fn view(&self) -> Seq<u8> {
        self.bytes@.drop_last()
    }

    /// The domain the path was encoded for.
    pub closed spec fn dom(&self) -> PathDomain {
        self.domain
    }

    /// The raw buffer to hand to the native call: the path bytes and one
    /// final NUL, with no NUL anywhere else.
    pub fn raw_bytes(&self) -> (r: &Vec<u8>)
        ensures
            r@ == self@.push(0u8),
            nul_free(self@),
    {
        proof {
            use_type_invariant(self);
            assert(self.bytes@ =~= self@.push(0u8));
        }
        &self.bytes
    }

    /// The domain tag, for callers that route requests at run time.
    pub fn domain_tag(&self) -> (r: PathDomain)
        ensures
            r == self.dom(),
    {
        self.domain
    }
}

/// Appends the NUL terminator after checking that none is embedded.
fn encode(domain: PathDomain, path: &Vec<u8>) -> (r: Result<NativeString, LibGuestFsError>)
    ensures
        (r is Ok) <==> nul_free(path@),
        (r matches Ok(s) ==> s@ == path@ && s.dom() == domain),
        (r matches Err(e) ==> e is PathEncoding),
{
    let mut out: Vec<u8> = Vec::new();
    let mut i: usize = 0;
    while i < path.len()
        invariant
            i <= path@.len(),
            out@ == path@.take(i as int),
            forall|j: int| 0 <= j < i ==> path@[j] != 0,
        decreases path@.len() - i,
    {
        let b = path[i];
        if b == 0 {
            return Err(LibGuestFsError::PathEncoding);
        }
        out.push(b);
        i += 1;
    }
    assert(out@ =~= path@);
    out.push(0);
    let s = NativeString { domain, bytes: out };
    proof {
        assert(s.bytes@.drop_last() =~= path@);
    }
    Ok(s)
}

/// Encodes a host path for the native boundary.
///
/// The caller resolves the path against the host filesystem first
/// (canonicalization is host I/O and lives with the caller); `path` is the
/// resolved path's bytes. Encoding fails exactly when a NUL byte is
/// embedded.
pub fn encode_host(path: &Vec<u8>) -> (r: Result<NativeString, LibGuestFsError>)
    ensures
        (r is Ok) <==> nul_free(path@),
        (r matches Ok(s) ==> s@ == path@ && s.dom() == PathDomain::Host),
        (r matches Err(e) ==> e is PathEncoding),
{
    encode(PathDomain::Host, path)
}

/// Encodes a guest path for the native boundary.
///
/// The bytes are passed through untouched — a guest path is meaningful only
/// inside the not-yet-inspected image, so no host filesystem check applies.
/// Encoding fails exactly when a NUL byte is embedded.
pub fn encode_guest(path: &Vec<u8>) -> (r: Result<NativeString, LibGuestFsError>)
    ensures
        (r is Ok) <==> nul_free(path@),
        (r matches Ok(s) ==> s@ == path@ && s.dom() == PathDomain::Guest),
        (r matches Err(e) ==> e is PathEncoding),
{
    encode(PathDomain::Guest, path)
}

} // verus!
