//! Non-local control transfer: capture a resumption point in a live stack
//! frame and later jump back to it, optionally saving and restoring the
//! process signal mask around the jump.
//!
//! The register-level capture and restore are machine code outside this
//! crate. This crate holds the portable part: the buffer records and their
//! slot layout, what a capture stores and what a resume installs, the
//! coercion of the resume code, and the arguments of the signal-mask call.

mod context;
mod jump_buf;
mod laws;
mod mask;
mod sig_jump_buf;

pub use context::Context;
pub use jump_buf::{
    landing_code, landing_of, resume_code, JumpBuf, Landing, JUMP_BUF_SIZE, SLOT_PC, SLOT_R12,
    SLOT_R13, SLOT_R14, SLOT_R15, SLOT_RBP, SLOT_RBX, SLOT_SP,
};
pub use laws::{
    land, law_dual_return, law_mask_round_trip, law_memory_survives_resume, law_zero_coercion,
    Machine,
};
pub use mask::{
    capture_mask_call, capture_mask_call_spec, mask_call, mask_call_spec, mask_effect,
    resume_mask_call, MaskCall, MaskDirection, HOW_SETMASK, SIGSET_SIZE, SYS_RT_SIGPROCMASK,
};
pub use sig_jump_buf::SigJumpBuf;
