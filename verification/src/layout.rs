//! Layout descriptor: the fixed-size headers of the string object layout,
//! modelled as plain values.  Three nested shapes, each a strict extension
//! of the previous one: the base (ASCII) header, the compact header with
//! its cached fields, and the full header with the trailing payload slot.

use vstd::prelude::*;

verus! {

/// Signed size type of the host runtime (a count of code points, never bytes).
pub type Py_ssize_t = isize;

/// Signed hash type of the host runtime.
pub type Py_hash_t = isize;

/// Byte size of the base (ASCII) header in the host runtime's memory,
/// the object-identity header counted in.  The payload of a compact
/// pure-ASCII object starts this many bytes past the object's base address.
pub const ASCII_OBJECT_SIZE: usize = 48;

/// Byte size of the compact header in the host runtime's memory: the base
/// header followed by the three cached fields.  The payload of a compact
/// non-ASCII object starts this many bytes past the object's base address.
pub const COMPACT_OBJECT_SIZE: usize = 72;

/// Base header of every string object.  The host's object-identity header
/// that precedes these fields is opaque to this crate and not modelled;
/// `ASCII_OBJECT_SIZE` accounts for its bytes.
#[derive(Clone, Copy)]
pub struct PyASCIIObject {
    /// Number of code points (not bytes).  Never negative on a valid object.
    pub length: Py_ssize_t,
    /// Lazily computed hash; `-1` means "not computed yet".  Read-only here.
    pub hash: Py_hash_t,
    /// Packed bit field, decoded through the accessors:
    ///
    /// bits 0..2  interned      (0 = no, 1 = mortal, 2 = immortal)
    /// bits 2..5  kind          (0, 1, 2 or 4: bytes per code unit)
    /// bit  5     compact       (1 = inline payload, 0 = indirect payload)
    /// bit  6     ascii         (1 = all code points below 128)
    /// bit  7     ready         (1 = header fully initialized)
    /// bits 8..32 reserved
    pub state: u32,
    /// Address of the deprecated wide-character cache; 0 when absent.
    pub wstr: usize,
}

impl PyASCIIObject {
    /// Invariant the host runtime maintains on every valid header.
    pub open spec fn wf(self) -> bool {
        self.length >= 0
    }
}

/// Compact header: base header plus three cached fields.  A compact
/// non-ASCII object's payload follows these; a compact pure-ASCII object
/// does not carry them at all, so nothing may ever read them before the
/// flags have been consulted.
#[derive(Clone, Copy)]
pub struct PyCompactUnicodeObject {
    pub _base: PyASCIIObject,
    /// Cached UTF-8 equivalent byte length.
    pub utf8_length: Py_ssize_t,
    /// Address of the cached UTF-8 equivalent buffer; 0 when absent.
    pub utf8: usize,
    /// Cached wide-string length.
    pub wstr_length: Py_ssize_t,
}

/// Trailing payload slot of a non-compact (legacy) object.  The real layout
/// stores one pointer-sized slot whatever the element width; `kind` only
/// tells the caller how many bytes to read per element.
#[derive(Clone, Copy, PartialEq, Eq, Structural)]
pub struct PyUnicodeObjectData {
    /// Address of the payload buffer; 0 stands for null.
    pub any: usize,
}

/// Full header: compact header plus the trailing payload slot, present
/// only on non-compact (legacy) objects.
#[derive(Clone, Copy)]
pub struct PyUnicodeObject {
    pub _base: PyCompactUnicodeObject,
    pub data: PyUnicodeObjectData,
}

/// The packed flag word of an object, read through the nested headers.
pub open spec fn spec_state(op: PyUnicodeObject) -> u32 {
    op._base._base.state
}

impl PyUnicodeObject {
    /// Invariant the host runtime maintains on every valid object: the
    /// length is never negative, and once a non-compact object is ready
    /// its payload slot holds a non-null address.
    pub open spec fn wf(self) -> bool {
        &&& self._base._base.wf()
        &&& (crate::flags::spec_compact(spec_state(self)) == 0
            && crate::flags::spec_ready(spec_state(self)) == 1 ==> self.data.any != 0)
    }
}

} // verus!
