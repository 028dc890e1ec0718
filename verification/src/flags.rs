//! Flag decoder: pure bit-field extraction over the packed flag word.
//! Five fields sit at fixed, non-overlapping bit ranges; the high bits are
//! reserved.  Every extractor is total over all 32-bit words, so corrupted
//! input never makes it fail — it simply yields the masked value.

use vstd::prelude::*;
use crate::layout::PyASCIIObject;

verus! {

pub const SSTATE_NOT_INTERNED: u32 = 0;
pub const SSTATE_INTERNED_MORTAL: u32 = 1;
pub const SSTATE_INTERNED_IMMORTAL: u32 = 2;

/// Deprecated wide representation; only seen on legacy objects that are
/// not ready yet.
pub const PyUnicode_WCHAR_KIND: u32 = 0;
pub const PyUnicode_1BYTE_KIND: u32 = 1;
pub const PyUnicode_2BYTE_KIND: u32 = 2;
pub const PyUnicode_4BYTE_KIND: u32 = 4;

/// Interning state: bits 0..2 of the flag word.
pub open spec fn spec_interned(state: u32) -> u32 {
    state & 3
}

/// Element-width kind: bits 2..5 of the flag word.
pub open spec fn spec_kind(state: u32) -> u32 {
    (state >> 2) & 7
}

/// Compact-storage marker: bit 5 of the flag word.
pub open spec fn spec_compact(state: u32) -> u32 {
    (state >> 5) & 1
}

/// Pure-ASCII marker: bit 6 of the flag word.
pub open spec fn spec_ascii(state: u32) -> u32 {
    (state >> 6) & 1
}

/// Readiness marker: bit 7 of the flag word.
pub open spec fn spec_ready(state: u32) -> u32 {
    (state >> 7) & 1
}

/// The word built by placing the five fields back at their documented
/// offsets, all reserved bits zero.
pub open spec fn pack_state(interned: u32, kind: u32, compact: u32, ascii: u32, ready: u32) -> u32 {
    interned | (kind << 2) | (compact << 5) | (ascii << 6) | (ready << 7)
}

/// Every decoded field lies in the range its bit width allows, whatever
/// the input word: the decoder accepts all of 0..=3 for the interning
/// state (3 is unused by the host but not rejected), all of 0..=7 for the
/// kind, and 0 or 1 for each single-bit flag.
pub proof fn lemma_field_ranges(w: u32)
    by (bit_vector)
    ensures
        spec_interned(w) <= 3,
        spec_kind(w) <= 7,
        spec_compact(w) <= 1,
        spec_ascii(w) <= 1,
        spec_ready(w) <= 1,
{
}

/// Bitfield round trip, word first: placing the five decoded fields of any
/// word back at their documented offsets, reserved bits zero, reproduces
/// exactly the word's low 8 bits.
pub proof fn lemma_state_round_trip(w: u32)
    by (bit_vector)
    ensures
        pack_state(spec_interned(w), spec_kind(w), spec_compact(w), spec_ascii(w), spec_ready(w))
            == w & 0xff,
{
}

/// Bitfield round trip, fields first: decoding the word built from any
/// in-range five-tuple of field values recovers exactly those values.
pub proof fn lemma_fields_round_trip(interned: u32, kind: u32, compact: u32, ascii: u32, ready: u32)
    by (bit_vector)
    requires
        interned < 4,
        kind < 8,
        compact < 2,
        ascii < 2,
        ready < 2,
    ensures
        spec_interned(pack_state(interned, kind, compact, ascii, ready)) == interned,
        spec_kind(pack_state(interned, kind, compact, ascii, ready)) == kind,
        spec_compact(pack_state(interned, kind, compact, ascii, ready)) == compact,
        spec_ascii(pack_state(interned, kind, compact, ascii, ready)) == ascii,
        spec_ready(pack_state(interned, kind, compact, ascii, ready)) == ready,
{
}

/// Flipping the ASCII bit of a word changes the decoded ASCII marker and
/// nothing else: the other four fields decode unchanged.
pub proof fn lemma_ascii_bit_independent(w: u32)
    by (bit_vector)
    ensures
        spec_ascii(w ^ (1u32 << 6)) != spec_ascii(w),
        spec_interned(w ^ (1u32 << 6)) == spec_interned(w),
        spec_kind(w ^ (1u32 << 6)) == spec_kind(w),
        spec_compact(w ^ (1u32 << 6)) == spec_compact(w),
        spec_ready(w ^ (1u32 << 6)) == spec_ready(w),
{
}

/// Flipping the compact bit of a word changes the decoded compact marker
/// and nothing else: the other four fields decode unchanged.
pub proof fn lemma_compact_bit_independent(w: u32)
    by (bit_vector)
    ensures
        spec_compact(w ^ (1u32 << 5)) != spec_compact(w),
        spec_interned(w ^ (1u32 << 5)) == spec_interned(w),
        spec_kind(w ^ (1u32 << 5)) == spec_kind(w),
        spec_ascii(w ^ (1u32 << 5)) == spec_ascii(w),
        spec_ready(w ^ (1u32 << 5)) == spec_ready(w),
{
}

impl PyASCIIObject {
    /// Interning state of the object: 0 = not interned, 1 = interned
    /// mortal, 2 = interned immortal.  Total over any flag word.
    pub fn interned(&self) -> (r: u32)
        ensures
            r == spec_interned(self.state),
            r <= 3,
    {
        proof {
            lemma_field_ranges(self.state);
        }
        self.state & 3
    }

    /// Element-width kind of the object: 1, 2 or 4 bytes per code unit,
    /// or 0 for the deprecated wide representation.  Total over any flag
    /// word; a word outside {0, 1, 2, 4} is handed on undetected.
    pub fn kind(&self) -> (r: u32)
        ensures
            r == spec_kind(self.state),
            r <= 7,
    {
        proof {
            lemma_field_ranges(self.state);
        }
        (self.state >> 2) & 7
    }

    /// Compact-storage marker: 1 when the payload sits inline after the
    /// header, 0 when it is reached through the trailing slot.
    pub fn compact(&self) -> (r: u32)
        ensures
            r == spec_compact(self.state),
            r <= 1,
    {
        proof {
            lemma_field_ranges(self.state);
        }
        (self.state >> 5) & 1
    }

    /// Pure-ASCII marker: 1 when every code point is below 128.
    pub fn ascii(&self) -> (r: u32)
        ensures
            r == spec_ascii(self.state),
            r <= 1,
    {
        proof {
            lemma_field_ranges(self.state);
        }
        (self.state >> 6) & 1
    }

    /// Readiness marker: 1 once the header is fully initialized and every
    /// derived field may be read.
    pub fn ready(&self) -> (r: u32)
        ensures
            r == spec_ready(self.state),
            r <= 1,
    {
        proof {
            lemma_field_ranges(self.state);
        }
        (self.state >> 7) & 1
    }
}

/// Pure-ASCII marker of a ready object.
pub fn PyUnicode_IS_ASCII(op: &PyASCIIObject) -> (r: u32)
    requires
        spec_ready(op.state) == 1,
    ensures
        r == spec_ascii(op.state),
        r <= 1,
{
    op.ascii()
}

/// Compact-storage marker of a ready object.
pub fn PyUnicode_IS_COMPACT(op: &PyASCIIObject) -> (r: u32)
    requires
        spec_ready(op.state) == 1,
    ensures
        r == spec_compact(op.state),
        r <= 1,
{
    op.compact()
}

/// 1 exactly when the object is both compact and pure ASCII.
pub fn PyUnicode_IS_COMPACT_ASCII(op: &PyASCIIObject) -> (r: u32)
    requires
        spec_ready(op.state) == 1,
    ensures
        r == 1 <==> (spec_compact(op.state) == 1 && spec_ascii(op.state) == 1),
        r <= 1,
{
    if op.ascii() != 0 && PyUnicode_IS_COMPACT(op) != 0 {
        1
    } else {
        0
    }
}

/// Element-width kind of a ready object.
pub fn PyUnicode_KIND(op: &PyASCIIObject) -> (r: u32)
    requires
        spec_ready(op.state) == 1,
    ensures
        r == spec_kind(op.state),
        r <= 7,
{
    op.kind()
}

/// Readiness marker; the one derived read that needs no precondition,
/// since it is what callers consult before anything else.
pub fn PyUnicode_IS_READY(op: &PyASCIIObject) -> (r: u32)
    ensures
        r == spec_ready(op.state),
        r <= 1,
{
    op.ready()
}

} // verus!
