//! Readiness step: the decision whether the host runtime's one-time
//! initializer must run before derived fields may be read.  The initializer
//! itself belongs to the host; this crate only decides, from the flag word
//! alone, whether to invoke it.

use vstd::prelude::*;
use crate::layout::{PyUnicodeObject, spec_state};
use crate::flags::{spec_kind, spec_ready};
use crate::locate::{spec_data_address, PayloadLocation};

verus! {

/// What the caller must do before reading derived fields of an object.
#[derive(Clone, Copy, PartialEq, Eq, Structural, Debug)]
pub enum ReadyAction {
    /// The header is fully initialized; nothing to do.
    AlreadyReady,
    /// The host runtime's one-time initializer must run first; on a
    /// failure status from it, no derived field may be trusted.
    RunInitializer,
}

/// The readiness decision as a function of the flag word alone.
pub open spec fn spec_ready_action(state: u32) -> ReadyAction {
    if spec_ready(state) == 1 {
        ReadyAction::AlreadyReady
    } else {
        ReadyAction::RunInitializer
    }
}

/// Decide whether the host runtime's initializer must run: it must exactly
/// when the readiness bit is clear, and never on an already-ready object.
pub fn PyUnicode_READY(op: &crate::layout::PyASCIIObject) -> (r: ReadyAction)
    ensures
        r == spec_ready_action(op.state),
        r == ReadyAction::AlreadyReady <==> spec_ready(op.state) == 1,
{
    if crate::flags::PyUnicode_IS_READY(op) != 0 {
        ReadyAction::AlreadyReady
    } else {
        ReadyAction::RunInitializer
    }
}

/// Idempotent readiness: an already-ready object never demands an
/// initializer run, and the payload triple is a pure function of the
/// object and its base address, so two resolutions that both meet the
/// locator's contract return identical triples.
pub proof fn lemma_ready_idempotent(
    op: PyUnicodeObject,
    base: usize,
    first: PayloadLocation,
    second: PayloadLocation,
)
    requires
        spec_ready(spec_state(op)) == 1,
        first.address == spec_data_address(op, base),
        first.width == spec_kind(spec_state(op)),
        first.length == op._base._base.length,
        second.address == spec_data_address(op, base),
        second.width == spec_kind(spec_state(op)),
        second.length == op._base._base.length,
    ensures
        spec_ready_action(spec_state(op)) == ReadyAction::AlreadyReady,
        first == second,
{
}

} // verus!
