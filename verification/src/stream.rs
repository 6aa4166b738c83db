//! Byte-stream buffering shared by the codecs: a bounded receive buffer and
//! the search for frame delimiters in it.

use vstd::prelude::*;
use vstd::slice::{slice_subrange, slice_to_vec};

use crate::text::push_all;

verus! {

/// The longest frame a codec expects; a buffer holding more than four of
/// them is cut back to the newest one frame's worth of bytes.
pub const MAX_BUFFERED_FRAME: usize = 64;

/// The buffer after appending `data`: past four commands' worth of bytes only
/// the last `MAX_BUFFERED_FRAME` are kept.
pub open spec fn buffer_after_push(buf: Seq<u8>, data: Seq<u8>) -> Seq<u8> {
    let all = buf + data;
    if all.len() > 4 * MAX_BUFFERED_FRAME {
        all.subrange(all.len() - MAX_BUFFERED_FRAME, all.len() as int)
    } else {
        all
    }
}

/// Index of the first `b` in `s`, if any.
pub open spec fn first_index_of(s: Seq<u8>, b: u8) -> Option<int> {
    if exists|i: int| 0 <= i < s.len() && s[i] == b && forall|j: int| 0 <= j < i ==> s[j] != b {
        Some(choose|i: int| 0 <= i < s.len() && s[i] == b && forall|j: int| 0 <= j < i ==> s[j] != b)
    } else {
        None
    }
}

pub proof fn lemma_first_index_of(s: Seq<u8>, b: u8, k: int)
    requires
        0 <= k < s.len(),
        s[k] == b,
        forall|j: int| 0 <= j < k ==> s[j] != b,
    ensures
        first_index_of(s, b) == Some(k),
{
    let w = choose|i: int| 0 <= i < s.len() && s[i] == b && forall|j: int| 0 <= j < i ==> s[j] != b;
    assert(0 <= k < s.len() && s[k] == b && forall|j: int| 0 <= j < k ==> s[j] != b);
    if w < k {
        assert(s[w] != b);
    } else if w > k {
        assert(s[k] != b);
    }
}

/// What `first_index_of` finds is an occurrence with none before it.
pub proof fn lemma_first_index_of_found(s: Seq<u8>, b: u8)
    ensures
        first_index_of(s, b) matches Some(k) ==> 0 <= k < s.len() && s[k] == b && forall|j: int|
            0 <= j < k ==> s[j] != b,
{
}

/// Position of the first `b` in `s`.
pub fn find_byte(s: &[u8], b: u8) -> (r: Option<usize>)
    ensures
        r matches Some(k) ==> first_index_of(s@, b) == Some(k as int) && k < s.len(),
        r is None ==> first_index_of(s@, b) is None,
{
    let mut i: usize = 0;
    while i < s.len()
        invariant
            i <= s@.len(),
            forall|j: int| 0 <= j < i ==> s@[j] != b,
        decreases s.len() - i,
    {
        if s[i] == b {
            proof {
                lemma_first_index_of(s@, b, i as int);
            }
            return Some(i);
        }
        i = i + 1;
    }
    None
}

/// Appends `data`, keeping only the last `MAX_BUFFERED_FRAME` bytes when more
/// than four commands' worth pile up.
pub(crate) fn push_limited(buffer: &mut Vec<u8>, data: &[u8])
    ensures
        final(buffer)@ == buffer_after_push(old(buffer)@, data@),
{
    push_all(buffer, data);
    if buffer.len() > MAX_BUFFERED_FRAME * 4 {
        let start = buffer.len() - MAX_BUFFERED_FRAME;
        let kept = slice_to_vec(slice_subrange(buffer.as_slice(), start, buffer.len()));
        *buffer = kept;
    }
}

/// Splits off the first `term`-terminated frame of `buffer`, returning it with
/// its terminator.
pub(crate) fn take_frame(buffer: &mut Vec<u8>, term: u8) -> (r: Option<Vec<u8>>)
    ensures
        first_index_of(old(buffer)@, term) matches Some(k) ==> {
            &&& r matches Some(f) && f@ == old(buffer)@.subrange(0, k + 1)
            &&& final(buffer)@ == old(buffer)@.subrange(k + 1, old(buffer)@.len() as int)
        },
        first_index_of(old(buffer)@, term) is None ==> r is None && final(buffer)@ == old(buffer)@,
{
    proof {
        lemma_first_index_of_found(buffer@, term);
    }
    match find_byte(buffer.as_slice(), term) {
        None => None,
        Some(k) => {
            let frame = slice_to_vec(slice_subrange(buffer.as_slice(), 0, k + 1));
            let rest = slice_to_vec(slice_subrange(buffer.as_slice(), k + 1, buffer.len()));
            *buffer = rest;
            Some(frame)
        },
    }
}

/// The frame the codec takes next from buffer `buf` and the buffer left
/// after it, if a complete frame is present.
pub open spec fn next_frame(buf: Seq<u8>, term: u8) -> Option<(Seq<u8>, Seq<u8>)> {
    match first_index_of(buf, term) {
        Some(k) => Some((buf.subrange(0, k + 1), buf.subrange(k + 1, buf.len() as int))),
        None => None,
    }
}

/// Frames split where the first one ends: a frame with its terminator
/// only at its end, followed by anything, is taken first and leaves the
/// rest.
pub proof fn law_frame_split(a: Seq<u8>, b: Seq<u8>, term: u8)
    requires
        a.len() > 0,
        a.last() == term,
        forall|j: int| 0 <= j < a.len() - 1 ==> a[j] != term,
    ensures
        next_frame(a + b, term) == Some((a, b)),
{
    let s = a + b;
    assert forall|j: int| 0 <= j < a.len() - 1 implies s[j] != term by {
        assert(s[j] == a[j]);
    }
    lemma_first_index_of(s, term, a.len() - 1);
    assert(s.subrange(0, a.len() as int) =~= a);
    assert(s.subrange(a.len() as int, s.len() as int) =~= b);
}

} // verus!
