//! Classification of single log lines into camera power events.
//!
//! The upstream log is free text; only the fixed marker substrings are
//! stable. Classification is therefore plain substring containment, with no
//! normalisation of case or whitespace: a missed transition is preferred
//! over structured parsing that could break on format drift.

use vstd::prelude::*;

verus! {

/// What one log line says about the camera's power state.
#[derive(Clone, Copy, PartialEq, Eq, Structural, Debug)]
pub enum CameraEvent {
    /// The line carries the power-on marker.
    CameraOn,
    /// The line carries the power-off marker and not the power-on marker.
    CameraOff,
    /// The line carries neither marker.
    Ignored,
}

/// The fixed marker substring announcing camera power on.
pub open spec fn on_marker() -> Seq<char> {
    "= On"@
}

/// The fixed marker substring announcing camera power off.
pub open spec fn off_marker() -> Seq<char> {
    "= Off"@
}

/// `needle` occurs in `hay` starting at position `i`.
pub open spec fn occurs_at(hay: Seq<char>, needle: Seq<char>, i: int) -> bool {
    0 <= i && i + needle.len() <= hay.len() && hay.subrange(i, i + needle.len()) == needle
}

/// `needle` occurs somewhere in `hay` as a contiguous substring.
pub open spec fn contains_seq(hay: Seq<char>, needle: Seq<char>) -> bool {
    exists|i: int| occurs_at(hay, needle, i)
}

/// The classification of a line, as a function of its content alone.
/// A line containing the power-on marker is `CameraOn` even when it also
/// contains the power-off marker: the on marker takes precedence, so
/// ambiguous lines are classified deterministically.
pub open spec fn spec_classify(line: Seq<char>) -> CameraEvent {
    if contains_seq(line, on_marker()) {
        CameraEvent::CameraOn
    } else if contains_seq(line, off_marker()) {
        CameraEvent::CameraOff
    } else {
        CameraEvent::Ignored
    }
}

/// `needle` occurs in `hay` starting at character position `i`.
fn matches_at(hay: &str, needle: &str, i: usize) -> (b: bool)
    requires
        hay@.len() <= usize::MAX,
        i + needle@.len() <= hay@.len(),
    ensures
        b == occurs_at(hay@, needle@, i as int),
{
    let needle_len = needle.unicode_len();
    let mut j: usize = 0;
    while j < needle_len
        invariant
            hay@.len() <= usize::MAX,
            needle_len == needle@.len(),
            i + needle_len <= hay@.len(),
            j <= needle_len,
            forall|k: int| 0 <= k < j ==> hay@[i + k] == needle@[k],
        decreases needle_len - j,
    {
        if hay.get_char(i + j) != needle.get_char(j) {
            assert(!occurs_at(hay@, needle@, i as int)) by {
                if occurs_at(hay@, needle@, i as int) {
                    assert(hay@.subrange(i as int, i + needle@.len())[j as int] == hay@[i + j]);
                }
            }
            return false;
        }
        j = j + 1;
    }
    assert(hay@.subrange(i as int, i + needle@.len()) =~= needle@);
    true
}

/// `needle` occurs as a contiguous substring of `hay`.
pub fn contains_substring(hay: &str, needle: &str) -> (b: bool)
    ensures
        b == contains_seq(hay@, needle@),
{
    let hay_len = hay.unicode_len();
    let needle_len = needle.unicode_len();
    if needle_len > hay_len {
        assert(forall|i: int| !occurs_at(hay@, needle@, i));
        return false;
    }
    if needle_len == 0 {
        assert(occurs_at(hay@, needle@, 0)) by {
            assert(hay@.subrange(0, 0) =~= needle@);
        }
        return true;
    }
    let last = hay_len - needle_len;
    let mut i: usize = 0;
    while i <= last
        invariant
            hay@.len() <= usize::MAX,
            hay_len == hay@.len(),
            needle_len == needle@.len(),
            1 <= needle_len <= hay_len,
            last == hay_len - needle_len,
            i <= last + 1,
            forall|k: int| 0 <= k < i ==> !occurs_at(hay@, needle@, k),
        decreases last + 1 - i,
    {
        if matches_at(hay, needle, i) {
            return true;
        }
        i = i + 1;
    }
    assert(!contains_seq(hay@, needle@)) by {
        if contains_seq(hay@, needle@) {
            let w = choose|k: int| occurs_at(hay@, needle@, k);
            assert(!occurs_at(hay@, needle@, w));
        }
    }
    false
}

/// Classifies one log line by marker containment, the power-on marker
/// taking precedence on lines that contain both markers.
pub fn classify(line: &str) -> (e: CameraEvent)
    ensures
        e == spec_classify(line@),
{
    if contains_substring(line, "= On") {
        CameraEvent::CameraOn
    } else if contains_substring(line, "= Off") {
        CameraEvent::CameraOff
    } else {
        CameraEvent::Ignored
    }
}

/// Law: classification is a pure function of line content, decided by
/// marker containment alone. A line containing the power-on marker is
/// `CameraOn` — also when it contains both markers, the deterministic
/// precedence for ambiguous lines; one containing the power-off marker and
/// not the power-on marker is `CameraOff`; every other line is `Ignored`.
pub proof fn lemma_classify_by_markers(line: Seq<char>)
    ensures
        contains_seq(line, on_marker()) ==> spec_classify(line) == CameraEvent::CameraOn,
        !contains_seq(line, on_marker()) && contains_seq(line, off_marker())
            ==> spec_classify(line) == CameraEvent::CameraOff,
        !contains_seq(line, on_marker()) && !contains_seq(line, off_marker())
            ==> spec_classify(line) == CameraEvent::Ignored,
{
}

} // verus!
