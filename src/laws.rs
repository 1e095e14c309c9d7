use vstd::prelude::*;

use crate::context::Context;
use crate::jump_buf::{landing_code, landing_of, Landing};
use crate::mask::{capture_mask_call_spec, mask_call_spec, mask_effect, MaskDirection};

verus! {

/// The state of a thread as far as a resume is concerned: the installed
/// calling-convention context, memory as a map from addresses to words, and
/// the process signal mask.
pub struct Machine {
    pub context: Context,
    pub memory: Map<int, usize>,
    pub mask: Seq<u8>,
}

/// The machine after a resume lands: the landing context is installed and
/// nothing else changes.
pub open spec fn land(m: Machine, l: Landing) -> Machine {
    Machine { context: l.context, ..m }
}

/// Capturing at `at` yields `0`; a later resume of that buffer with a
/// nonzero `code` lands back at `at`, where the same capture call yields `code`.
pub proof fn law_dual_return(at: Context, code: u32)
    requires
        code != 0,
    ensures
        landing_of(at.slots(), code) == (Landing { context: at, code }),
{
}

/// Resuming with code `0` lands exactly where resuming with code `1` does.
pub proof fn law_zero_coercion(b: Seq<usize>)
    ensures
        landing_of(b, 0) == landing_of(b, 1),
{
}

/// A word written to memory after the initial return of a capture at
/// `m.context`, and before a resume of that buffer with `code`, still holds
/// the written value once the resume has landed, whatever the running code
/// did to the registers in between; the capture call yields the coerced code.
pub proof fn law_memory_survives_resume(m: Machine, running: Context, addr: int, v: usize, code: u32)
    ensures
        ({
            let written = Machine { context: running, memory: m.memory.insert(addr, v), mask: m.mask };
            let l = landing_of(m.context.slots(), code);
            let after = land(written, l);
            &&& after.memory[addr] == v
            &&& after.context == m.context
            &&& l.code == landing_code(code)
        }),
{
}

/// With the mask kept, a capture under process mask `m` saves `m` into the
/// buffer's signal set at `addr`; whatever the mask becomes in between
/// (`between`), the matching signal-safe resume sets it back to `m`, and the
/// resumed capture call site does not touch it again.
pub proof fn law_mask_round_trip(m: Seq<u8>, ss: Seq<u8>, between: Seq<u8>, addr: usize, code: u32)
    requires
        addr != 0,
    ensures
        capture_mask_call_spec(true, 0, addr) == Some(mask_call_spec(MaskDirection::Save, addr)),
        ({
            let saved = mask_effect(mask_call_spec(MaskDirection::Save, addr), m, ss);
            let restored = mask_effect(mask_call_spec(MaskDirection::Restore, addr), between, saved.1);
            &&& saved.0 == m
            &&& restored.0 == m
        }),
        capture_mask_call_spec(true, landing_code(code), addr) is None,
{
}

} // verus!
