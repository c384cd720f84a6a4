//! Decoding of native results and accounting of native-buffer releases.
//!
//! Every value the engine returns by pointer lives on the native heap and
//! must be released exactly once, with the engine's own deallocation
//! routine, after its bytes have been copied out — and never be read again.
//! The caller that owns the handle copies each native buffer into a
//! [`NativeBuf`] (the pointer's identity plus a copy of its bytes) and hands
//! it here; the decoders below turn those copies into owned host values and
//! record in a [`ReleaseLog`] which buffers are now to be released, in
//! order. Decoding never partially succeeds: when an element of an array is
//! not valid text the whole operation fails, but every buffer already taken
//! over is still recorded for release before the error is surfaced.

use crate::error::LibGuestFsError;
use vstd::prelude::*;
use vstd::utf8::{decode_utf8, valid_utf8};

verus! {

/// A native-heap buffer after its bytes were copied to the host side:
/// `id` identifies the native allocation (so its release can be tracked),
/// `bytes` are the buffer's bytes up to, and not including, the NUL
/// terminator.
#[derive(Debug)]
pub struct NativeBuf {
    /// Identity of the native allocation this copy was taken from.
    pub id: u64,
    /// The buffer's content bytes.
    pub bytes: Vec<u8>,
}

/// The buffers a decoding pass has taken over and relinquished, in order.
///
/// The caller releases exactly the recorded allocations, each through the
/// engine's matching deallocation routine, and touches none of them again.
#[derive(Debug)]
pub struct ReleaseLog {
    released: Vec<u64>,
}

impl View for ReleaseLog {
    type V = Seq<u64>;

    closed spec fn view(&self) -> Seq<u64> {
        self.released@
    }
}

impl ReleaseLog {
    /// An empty log: nothing is due for release yet.
    pub fn new() -> (r: ReleaseLog)
        ensures
            r@ == Seq::<u64>::empty(),
    {
        ReleaseLog { released: Vec::new() }
    }

    /// Records that the buffer `id` is done with and must now be released.
    pub fn record(&mut self, id: u64)
        ensures
            final(self)@ == old(self)@.push(id),
    {
        self.released.push(id);
    }

    /// The recorded buffer identities, oldest first.
    pub fn ids(&self) -> (r: &Vec<u64>)
        ensures
            r@ == self@,
    {
        &self.released
    }
}

/// Relies on `String::from_utf8`: it succeeds exactly when the input is
/// valid UTF-8, and then returns the string of the decoded scalar values.
#[verifier::external_body]
fn utf8_to_string(bytes: &Vec<u8>) -> (r: Option<String>)
    ensures
        (r is Some) <==> valid_utf8(bytes@),
        (r matches Some(s) ==> s@ == decode_utf8(bytes@)),
{
    String::from_utf8(bytes.clone()).ok()
}

/// Decodes one native string buffer into an owned string and records the
/// buffer for release — also when decoding fails.
pub fn decode_c_string(buf: &NativeBuf, log: &mut ReleaseLog) -> (r: Result<
    String,
    LibGuestFsError,
>)
    ensures
        final(log)@ == old(log)@.push(buf.id),
        (r is Ok) <==> valid_utf8(buf.bytes@),
        (r matches Ok(s) ==> s@ == decode_utf8(buf.bytes@)),
        (r matches Err(e) ==> e is Decoding),
{
    let decoded = utf8_to_string(&buf.bytes);
    log.record(buf.id);
    match decoded {
        Some(s) => Ok(s),
        None => Err(LibGuestFsError::Decoding),
    }
}

/// The number of entries before the first NULL in a copied native string
/// array. The native array carries no length; the first NULL entry is its
/// only terminator.
pub open spec fn terminated_len(entries: Seq<Option<NativeBuf>>) -> int
    decreases entries.len(),
{
    if entries.len() == 0 {
        0
    } else if entries[0] is None {
        0
    } else {
        1 + terminated_len(entries.drop_first())
    }
}

/// The identities of the entries before the first NULL, in array order.
pub open spec fn terminated_ids(entries: Seq<Option<NativeBuf>>) -> Seq<u64> {
    Seq::new(terminated_len(entries) as nat, |i: int| entries[i].unwrap().id)
}

proof fn lemma_terminated_len_is_first_none(entries: Seq<Option<NativeBuf>>, n: int)
    requires
        0 <= n <= entries.len(),
        forall|j: int| 0 <= j < n ==> entries[j] is Some,
        n < entries.len() ==> entries[n] is None,
    ensures
        terminated_len(entries) == n,
    decreases n,
{
    if n == 0 {
    } else {
        assert(entries[0] is Some);
        lemma_terminated_len_is_first_none(entries.drop_first(), n - 1);
    }
}

/// The index of the first NULL entry in a copied native string array, which
/// is the number of strings the array holds. Every entry before it is
/// present; nothing at or past it is ever dereferenced.
pub fn count_strings(entries: &Vec<Option<NativeBuf>>) -> (n: usize)
    ensures
        n == terminated_len(entries@),
        n <= entries@.len(),
        forall|j: int| 0 <= j < n ==> entries@[j] is Some,
        n < entries@.len() ==> entries@[n as int] is None,
{
    let mut i: usize = 0;
    while i < entries.len() && entries[i].is_some()
        invariant
            i <= entries@.len(),
            forall|j: int| 0 <= j < i ==> entries@[j] is Some,
        decreases entries@.len() - i,
    {
        i += 1;
    }
    proof {
        lemma_terminated_len_is_first_none(entries@, i as int);
    }
    i
}

/// Decodes a copied NULL-terminated array of native strings.
///
/// The entries before the first NULL are decoded, in array order, into owned
/// strings. Whatever the outcome, each of those entries and then the array
/// buffer itself (`array_id`) are recorded for release, each exactly once
/// and nothing else: a failing element fails the whole operation but no
/// buffer already taken over is forgotten.
pub fn decode_string_list(
    array_id: u64,
    entries: &Vec<Option<NativeBuf>>,
    log: &mut ReleaseLog,
) -> (r: Result<Vec<String>, LibGuestFsError>)
    ensures
        final(log)@ == old(log)@ + terminated_ids(entries@) + seq![array_id],
        (r is Ok) <==> (forall|i: int|
            0 <= i < terminated_len(entries@) ==> valid_utf8(entries@[i].unwrap().bytes@)),
        (r matches Ok(v) ==> v@.len() == terminated_len(entries@) && (forall|i: int|
            0 <= i < terminated_len(entries@) ==> v@[i]@ == decode_utf8(
                entries@[i].unwrap().bytes@,
            ))),
        (r matches Err(e) ==> e is Decoding),
{
    let n = count_strings(entries);
    let ghost log0 = log@;
    let mut out: Vec<String> = Vec::new();
    let mut all_ok = true;
    let mut i: usize = 0;
    while i < n
        invariant
            n == terminated_len(entries@),
            n <= entries@.len(),
            forall|j: int| 0 <= j < n ==> entries@[j] is Some,
            i <= n,
            log@ == log0 + terminated_ids(entries@).take(i as int),
            all_ok <==> (forall|j: int| 0 <= j < i ==> valid_utf8(entries@[j].unwrap().bytes@)),
            all_ok ==> out@.len() == i && (forall|j: int|
                0 <= j < i ==> out@[j]@ == decode_utf8(entries@[j].unwrap().bytes@)),
        decreases n - i,
    {
        match &entries[i] {
            Some(buf) => {
                match decode_c_string(buf, log) {
                    Ok(s) => {
                        if all_ok {
                            out.push(s);
                        }
                    },
                    Err(_) => {
                        all_ok = false;
                    },
                }
                proof {
                    assert(log@ =~= log0 + terminated_ids(entries@).take(i as int + 1));
                }
            },
            None => {
                proof {
                    assert(false);
                }
            },
        }
        i += 1;
    }
    proof {
        assert(terminated_ids(entries@).take(n as int) =~= terminated_ids(entries@));
    }
    log.record(array_id);
    proof {
        assert(log@ =~= log0 + terminated_ids(entries@) + seq![array_id]);
    }
    if all_ok {
        Ok(out)
    } else {
        Err(LibGuestFsError::Decoding)
    }
}

/// The number of times `x` occurs in `ids`.
pub open spec fn occurrences(ids: Seq<u64>, x: u64) -> nat
    decreases ids.len(),
{
    if ids.len() == 0 {
        0
    } else {
        occurrences(ids.drop_last(), x) + (if ids.last() == x {
            1nat
        } else {
            0nat
        })
    }
}

proof fn lemma_occurrences_concat(a: Seq<u64>, b: Seq<u64>, x: u64)
    ensures
        occurrences(a + b, x) == occurrences(a, x) + occurrences(b, x),
    decreases b.len(),
{
    if b.len() == 0 {
        assert(a + b =~= a);
    } else {
        assert((a + b).drop_last() =~= a + b.drop_last());
        assert((a + b).last() == b.last());
        lemma_occurrences_concat(a, b.drop_last(), x);
    }
}

proof fn lemma_occurrences_zero(s: Seq<u64>, x: u64)
    requires
        !s.contains(x),
    ensures
        occurrences(s, x) == 0,
    decreases s.len(),
{
    if s.len() > 0 {
        assert(!s.drop_last().contains(x)) by {
            if s.drop_last().contains(x) {
                let j = choose|j: int| 0 <= j < s.drop_last().len() && s.drop_last()[j] == x;
                assert(s[j] == x);
            }
        }
        lemma_occurrences_zero(s.drop_last(), x);
    }
}

proof fn lemma_occurrences_once(s: Seq<u64>, i: int)
    requires
        s.no_duplicates(),
        0 <= i < s.len(),
    ensures
        occurrences(s, s[i]) == 1,
    decreases s.len(),
{
    if i == s.len() - 1 {
        assert(!s.drop_last().contains(s[i])) by {
            if s.drop_last().contains(s[i]) {
                let j = choose|j: int| 0 <= j < s.drop_last().len() && s.drop_last()[j] == s[i];
                assert(s[j] == s[i]);
            }
        }
        lemma_occurrences_zero(s.drop_last(), s[i]);
    } else {
        assert(s.drop_last().no_duplicates());
        lemma_occurrences_once(s.drop_last(), i);
        assert(s.last() != s[i]);
    }
}

/// Law: decoding a NULL-terminated array of N strings releases exactly N + 1
/// native buffers — the N entries and the array buffer — each exactly once.
///
/// [`decode_string_list`] extends the release log by the entry identities
/// and then the array identity, on the success path and the failure path
/// alike. This law states the accounting that follows: provided the buffers
/// involved are pairwise distinct allocations none of which was released
/// before, each is recorded exactly once afterwards, and the log grows by
/// exactly N + 1 entries — no leak and no double release.
pub proof fn lemma_array_release_accounting(pre: Seq<u64>, ids: Seq<u64>, array_id: u64)
    requires
        ids.no_duplicates(),
        !ids.contains(array_id),
        forall|i: int| 0 <= i < ids.len() ==> !pre.contains(ids[i]),
        !pre.contains(array_id),
    ensures
        (pre + ids + seq![array_id]).len() == pre.len() + ids.len() + 1,
        forall|i: int| 0 <= i < ids.len() ==> occurrences(pre + ids + seq![array_id], ids[i]) == 1,
        occurrences(pre + ids + seq![array_id], array_id) == 1,
{
    assert forall|i: int| 0 <= i < ids.len() implies occurrences(
        pre + ids + seq![array_id],
        ids[i],
    ) == 1 by {
        lemma_occurrences_concat(pre + ids, seq![array_id], ids[i]);
        lemma_occurrences_concat(pre, ids, ids[i]);
        lemma_occurrences_zero(pre, ids[i]);
        lemma_occurrences_once(ids, i);
        assert(ids[i] != array_id);
        assert(!seq![array_id].contains(ids[i])) by {
            assert(seq![array_id][0] == array_id);
        }
        lemma_occurrences_zero(seq![array_id], ids[i]);
    }
    lemma_occurrences_concat(pre + ids, seq![array_id], array_id);
    lemma_occurrences_concat(pre, ids, array_id);
    lemma_occurrences_zero(pre, array_id);
    lemma_occurrences_zero(ids, array_id);
    assert(occurrences(seq![array_id], array_id) == 1) by {
        assert(seq![array_id].drop_last() =~= Seq::<u64>::empty());
        assert(seq![array_id].last() == array_id);
        assert(occurrences(Seq::<u64>::empty(), array_id) == 0);
    }
}

} // verus!
