//! Payload locator: from an object's base address and its decoded flags,
//! the address, element width and element count of the character payload.
//! Three branches, mutually exclusive and exhaustive over the compact and
//! ASCII markers: compact pure-ASCII payloads follow the base header,
//! compact non-ASCII payloads follow the compact header, and legacy
//! payloads are reached through the trailing slot.

use vstd::prelude::*;
use crate::layout::{
    PyASCIIObject, PyUnicodeObject, Py_ssize_t, spec_state, ASCII_OBJECT_SIZE,
    COMPACT_OBJECT_SIZE,
};
use crate::flags::{
    spec_ascii, spec_compact, spec_kind, spec_ready, lemma_field_ranges, PyUnicode_IS_ASCII,
    PyUnicode_IS_COMPACT, PyUnicode_KIND,
};

verus! {

/// The payload branch of an object whose flag word shows compact storage
/// without the pure-ASCII marker.
pub open spec fn is_compact_full(state: u32) -> bool {
    spec_compact(state) == 1 && spec_ascii(state) != 1
}

/// The payload branch of an object whose flag word shows compact storage
/// with the pure-ASCII marker.
pub open spec fn is_compact_ascii(state: u32) -> bool {
    spec_compact(state) == 1 && spec_ascii(state) == 1
}

/// The payload branch of an object whose flag word shows indirect
/// (legacy) storage.
pub open spec fn is_legacy(state: u32) -> bool {
    spec_compact(state) != 1
}

/// Exactly one payload branch applies to any flag word: the three branch
/// predicates are mutually exclusive and exhaustive, so no word can ever
/// select two sources for the payload address, or none.
pub proof fn lemma_branch_exclusive(state: u32)
    by (bit_vector)
    ensures
        is_legacy(state) || is_compact_ascii(state) || is_compact_full(state),
        !(is_legacy(state) && is_compact_ascii(state)),
        !(is_legacy(state) && is_compact_full(state)),
        !(is_compact_ascii(state) && is_compact_full(state)),
{
}

/// Payload address of a compact object: a pure address computation over
/// the base address and two flag bits.  No cached header field enters it,
/// so it holds even while those fields carry garbage.
pub open spec fn spec_compact_data_address(state: u32, base: usize) -> int {
    if spec_ascii(state) == 1 {
        base + ASCII_OBJECT_SIZE
    } else {
        base + COMPACT_OBJECT_SIZE
    }
}

/// Payload address of any object: inline past one of the two header sizes
/// when compact, the trailing slot's stored address when legacy.
pub open spec fn spec_data_address(op: PyUnicodeObject, base: usize) -> int {
    if spec_compact(spec_state(op)) == 1 {
        spec_compact_data_address(spec_state(op), base)
    } else {
        op.data.any as int
    }
}

/// Inline payload address of a compact object.  Only the flag word and
/// the base address are read; the cached fields of the compact header are
/// skipped, never dereferenced.
pub fn _PyUnicode_COMPACT_DATA(op: &PyASCIIObject, base: usize) -> (r: usize)
    requires
        spec_ready(op.state) == 1,
        spec_ascii(op.state) == 1 ==> base + ASCII_OBJECT_SIZE <= usize::MAX,
        spec_ascii(op.state) != 1 ==> base + COMPACT_OBJECT_SIZE <= usize::MAX,
    ensures
        r == spec_compact_data_address(op.state, base),
        r != 0,
{
    if PyUnicode_IS_ASCII(op) != 0 {
        base + ASCII_OBJECT_SIZE
    } else {
        base + COMPACT_OBJECT_SIZE
    }
}

/// Payload address of a legacy object, read from the trailing slot.  The
/// slot must hold a non-null address; on a ready, well-formed object the
/// host runtime guarantees it does.
pub fn _PyUnicode_NONCOMPACT_DATA(op: &PyUnicodeObject) -> (r: usize)
    requires
        op.data.any != 0,
    ensures
        r == op.data.any,
        r != 0,
{
    op.data.any
}

/// Payload address of a ready object, branching on compactness.  The
/// result is pinned to the one source its branch prescribes and is never
/// null.
pub fn PyUnicode_DATA(op: &PyUnicodeObject, base: usize) -> (r: usize)
    requires
        spec_ready(spec_state(*op)) == 1,
        is_compact_ascii(spec_state(*op)) ==> base + ASCII_OBJECT_SIZE <= usize::MAX,
        is_compact_full(spec_state(*op)) ==> base + COMPACT_OBJECT_SIZE <= usize::MAX,
        is_legacy(spec_state(*op)) ==> op.data.any != 0,
    ensures
        r == spec_data_address(*op, base),
        r != 0,
{
    proof {
        lemma_field_ranges(spec_state(*op));
    }
    if PyUnicode_IS_COMPACT(&op._base._base) != 0 {
        _PyUnicode_COMPACT_DATA(&op._base._base, base)
    } else {
        _PyUnicode_NONCOMPACT_DATA(op)
    }
}

/// Payload address of a ready object whose elements the caller will read
/// one byte at a time.  The address is the same whatever the width; only
/// the caller's read size differs.
pub fn PyUnicode_1BYTE_DATA(op: &PyUnicodeObject, base: usize) -> (r: usize)
    requires
        spec_ready(spec_state(*op)) == 1,
        is_compact_ascii(spec_state(*op)) ==> base + ASCII_OBJECT_SIZE <= usize::MAX,
        is_compact_full(spec_state(*op)) ==> base + COMPACT_OBJECT_SIZE <= usize::MAX,
        is_legacy(spec_state(*op)) ==> op.data.any != 0,
    ensures
        r == spec_data_address(*op, base),
        r != 0,
{
    PyUnicode_DATA(op, base)
}

/// Payload address of a ready object whose elements the caller will read
/// two bytes at a time.
pub fn PyUnicode_2BYTE_DATA(op: &PyUnicodeObject, base: usize) -> (r: usize)
    requires
        spec_ready(spec_state(*op)) == 1,
        is_compact_ascii(spec_state(*op)) ==> base + ASCII_OBJECT_SIZE <= usize::MAX,
        is_compact_full(spec_state(*op)) ==> base + COMPACT_OBJECT_SIZE <= usize::MAX,
        is_legacy(spec_state(*op)) ==> op.data.any != 0,
    ensures
        r == spec_data_address(*op, base),
        r != 0,
{
    PyUnicode_DATA(op, base)
}

/// Payload address of a ready object whose elements the caller will read
/// four bytes at a time.
pub fn PyUnicode_4BYTE_DATA(op: &PyUnicodeObject, base: usize) -> (r: usize)
    requires
        spec_ready(spec_state(*op)) == 1,
        is_compact_ascii(spec_state(*op)) ==> base + ASCII_OBJECT_SIZE <= usize::MAX,
        is_compact_full(spec_state(*op)) ==> base + COMPACT_OBJECT_SIZE <= usize::MAX,
        is_legacy(spec_state(*op)) ==> op.data.any != 0,
    ensures
        r == spec_data_address(*op, base),
        r != 0,
{
    PyUnicode_DATA(op, base)
}

/// Number of code points of a ready, well-formed object; never negative.
pub fn PyUnicode_GET_LENGTH(op: &PyASCIIObject) -> (r: Py_ssize_t)
    requires
        op.wf(),
        spec_ready(op.state) == 1,
    ensures
        r == op.length,
        r >= 0,
{
    op.length
}

/// The resolved payload of an object: where its elements start, how many
/// bytes each element takes, and how many elements there are.
#[derive(Clone, Copy, PartialEq, Eq, Structural, Debug)]
pub struct PayloadLocation {
    /// Address of the first element.
    pub address: usize,
    /// Bytes per element, as the kind field encodes it.
    pub width: u32,
    /// Number of elements (code points).
    pub length: Py_ssize_t,
}

/// Resolve the payload of a ready, well-formed object: its address per
/// the one branch its flags select, its element width straight from the
/// kind field, and its element count from the header.
pub fn locate_payload(op: &PyUnicodeObject, base: usize) -> (r: PayloadLocation)
    requires
        op.wf(),
        spec_ready(spec_state(*op)) == 1,
        is_compact_ascii(spec_state(*op)) ==> base + ASCII_OBJECT_SIZE <= usize::MAX,
        is_compact_full(spec_state(*op)) ==> base + COMPACT_OBJECT_SIZE <= usize::MAX,
    ensures
        r.address == spec_data_address(*op, base),
        r.address != 0,
        r.width == spec_kind(spec_state(*op)),
        r.length == op._base._base.length,
        r.length >= 0,
{
    proof {
        lemma_field_ranges(spec_state(*op));
    }
    let address = PyUnicode_DATA(op, base);
    let width = PyUnicode_KIND(&op._base._base);
    let length = PyUnicode_GET_LENGTH(&op._base._base);
    PayloadLocation { address, width, length }
}

} // verus!
