//! Finding a target window by a title marker.
//!
//! The operating system enumerates top-level windows in an order of its
//! own choosing and reports, for each, a handle plus class-name and title
//! text read into bounded buffers (fixed capacity, so long texts arrive
//! truncated — a known limitation that is kept).  This module holds the
//! decision: which enumerated window is the target.  A window matches when
//! its title contains the marker, case-sensitively; the first match in
//! enumeration order wins.

use vstd::prelude::*;

verus! {

/// One enumerated top-level window: its opaque handle and the texts read
/// for (re-)identification, as UTF-16 units.
pub struct WindowEntry {
    /// Opaque handle to the underlying window.
    pub handle: u64,
    /// Reported class name (possibly truncated).
    pub class_name: Vec<u16>,
    /// Reported title text (possibly truncated).
    pub title: Vec<u16>,
}

/// `needle` occurs in `hay` starting at position `at`.
pub open spec fn occurs_at(hay: Seq<u16>, needle: Seq<u16>, at: int) -> bool {
    &&& 0 <= at
    &&& at + needle.len() <= hay.len()
    &&& forall|j: int| 0 <= j < needle.len() ==> hay[at + j] == needle[j]
}

/// `needle` occurs somewhere in `hay`.
pub open spec fn contains_units(hay: Seq<u16>, needle: Seq<u16>) -> bool {
    exists|at: int| occurs_at(hay, needle, at)
}

/// The entry's title contains the marker.
pub open spec fn entry_matches(e: &WindowEntry, needle: Seq<u16>) -> bool {
    contains_units(e.title@, needle)
}

/// The handles of all entries whose title contains the marker.
pub open spec fn matching_handles(ws: Seq<WindowEntry>, needle: Seq<u16>) -> Set<u64> {
    Set::new(
        |h: u64|
            exists|i: int|
                0 <= i < ws.len() && #[trigger] entry_matches(&ws[i], needle) && ws[i].handle
                    == h,
    )
}

/// Case-sensitive substring search over UTF-16 units.
pub fn contains_marker(hay: &Vec<u16>, needle: &Vec<u16>) -> (r: bool)
    ensures
        r == contains_units(hay@, needle@),
{
    let hay_len = hay.len();
    let needle_len = needle.len();
    if needle_len > hay_len {
        proof {
            assert(forall|at: int| !occurs_at(hay@, needle@, at));
        }
        return false;
    }
    let mut at: usize = 0;
    while at <= hay_len - needle_len
        invariant
            needle_len == needle@.len(),
            hay_len == hay@.len(),
            needle_len <= hay_len,
            at <= hay_len - needle_len + 1,
            forall|a: int| 0 <= a < at ==> !occurs_at(hay@, needle@, a),
        decreases hay_len - needle_len + 1 - at,
    {
        let mut j: usize = 0;
        let mut mismatch = false;
        while j < needle_len && !mismatch
            invariant
                needle_len == needle@.len(),
                hay_len == hay@.len(),
                at + needle_len <= hay_len,
                j <= needle_len,
                !mismatch ==> forall|k: int| 0 <= k < j ==> hay@[at + k] == needle@[k],
                mismatch ==> !occurs_at(hay@, needle@, at as int),
            decreases needle_len - j + (if mismatch { 0int } else { 1int }),
        {
            if hay[at + j] != needle[j] {
                proof {
                    assert(!occurs_at(hay@, needle@, at as int));
                }
                mismatch = true;
            } else {
                j = j + 1;
            }
        }
        if !mismatch {
            proof {
                assert(occurs_at(hay@, needle@, at as int));
            }
            return true;
        }
        at = at + 1;
    }
    proof {
        assert(forall|a: int| occurs_at(hay@, needle@, a) ==> 0 <= a <= hay@.len() - needle@.len());
    }
    false
}

/// The first enumerated window whose title contains the marker, as an
/// index into `windows`; `None` when no title contains it.
pub fn locate(windows: &Vec<WindowEntry>, needle: &Vec<u16>) -> (r: Option<usize>)
    ensures
        match r {
            Some(i) => {
                &&& i < windows@.len()
                &&& entry_matches(&windows@[i as int], needle@)
                &&& forall|k: int| 0 <= k < i ==> !entry_matches(&windows@[k], needle@)
            },
            None => forall|k: int|
                0 <= k < windows@.len() ==> !entry_matches(&windows@[k], needle@),
        },
{
    let n = windows.len();
    let mut i: usize = 0;
    while i < n
        invariant
            n == windows@.len(),
            i <= n,
            forall|k: int| 0 <= k < i ==> !entry_matches(&windows@[k], needle@),
        decreases n - i,
    {
        if contains_marker(&windows[i].title, needle) {
            return Some(i);
        }
        i = i + 1;
    }
    None
}

/// Locating the target is stable across repeated enumerations: as long as
/// the set of matching handles has not changed and only one window
/// matches, any two matching entries — in particular the first matches
/// that two `locate` calls return — bear the same handle, whatever order
/// the two enumerations reported the windows in.
pub proof fn lemma_locate_stable(
    ws1: Seq<WindowEntry>,
    ws2: Seq<WindowEntry>,
    needle: Seq<u16>,
    i1: int,
    i2: int,
)
    requires
        matching_handles(ws1, needle) == matching_handles(ws2, needle),
        forall|a: u64, b: u64|
            matching_handles(ws1, needle).contains(a) && matching_handles(ws1, needle).contains(b)
                ==> a == b,
        0 <= i1 < ws1.len(),
        entry_matches(&ws1[i1], needle),
        0 <= i2 < ws2.len(),
        entry_matches(&ws2[i2], needle),
    ensures
        ws1[i1].handle == ws2[i2].handle,
{
    assert(matching_handles(ws1, needle).contains(ws1[i1].handle));
    assert(matching_handles(ws2, needle).contains(ws2[i2].handle));
}

} // verus!
