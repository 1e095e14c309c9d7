use vstd::prelude::*;

verus! {

/// Size in bytes of the kernel's signal-set representation.
pub const SIGSET_SIZE: usize = 8;

/// Number of the `rt_sigprocmask` system call.
pub const SYS_RT_SIGPROCMASK: usize = 14;

/// The `how` argument of `rt_sigprocmask` that replaces the blocked set.
pub const HOW_SETMASK: usize = 2;

/// Relies on linux_raw_sys::general::__NR_rt_sigprocmask: the number of the
/// `rt_sigprocmask` system call on x86_64.
#[verifier::external_body]
fn sigprocmask_number() -> (r: usize)
    ensures
        r == SYS_RT_SIGPROCMASK,
{
    linux_raw_sys::general::__NR_rt_sigprocmask as usize
}

/// Relies on linux_raw_sys::general::SIG_SETMASK: the mode of
/// `rt_sigprocmask` that sets the blocked set absolutely.
#[verifier::external_body]
fn setmask_mode() -> (r: usize)
    ensures
        r == HOW_SETMASK,
{
    linux_raw_sys::general::SIG_SETMASK as usize
}

/// Relies on linux_raw_sys::general::sigset_t, a `c_ulong` on x86_64: the
/// size of the kernel's signal set.
#[verifier::external_body]
fn sigset_size() -> (r: usize)
    ensures
        r == SIGSET_SIZE,
{
    core::mem::size_of::<linux_raw_sys::general::sigset_t>()
}

/// Whether a mask call reads the process mask into a buffer or sets the
/// process mask from it.
#[derive(Clone, Copy, Debug, PartialEq, Eq, Structural)]
pub enum MaskDirection {
    Save,
    Restore,
}

/// The arguments of one `rt_sigprocmask` system call: the call number, the
/// mode, the address of the new set or zero, the address that receives the
/// old set or zero, and the size of a set.
#[derive(Clone, Copy, Debug, PartialEq, Eq, Structural)]
pub struct MaskCall {
    pub number: usize,
    pub how: usize,
    pub set: usize,
    pub oldset: usize,
    pub size: usize,
}

/// The call that saves (into) or restores (from) the signal set at `addr`.
pub open spec fn mask_call_spec(dir: MaskDirection, addr: usize) -> MaskCall {
    MaskCall {
        number: SYS_RT_SIGPROCMASK,
        how: HOW_SETMASK,
        set: if dir == MaskDirection::Restore {
            addr
        } else {
            0
        },
        oldset: if dir == MaskDirection::Save {
            addr
        } else {
            0
        },
        size: SIGSET_SIZE,
    }
}

/// The mask call a signal-safe capture issues when its call site returns
/// `ret`: a save on the initial return when the mask is kept, and nothing
/// otherwise (a resume restores the mask itself before it transfers).
pub open spec fn capture_mask_call_spec(save_mask: bool, ret: u32, addr: usize) -> Option<MaskCall> {
    if save_mask && ret == 0 {
        Some(mask_call_spec(MaskDirection::Save, addr))
    } else {
        None
    }
}

/// What the kernel does on a mask call, given the process mask and the
/// contents of the buffer that the call names: the new process mask and the
/// new buffer contents. The new set is read before the old one is written.
pub open spec fn mask_effect(call: MaskCall, process: Seq<u8>, buf: Seq<u8>) -> (Seq<u8>, Seq<u8>) {
    let mask = if call.set != 0 {
        buf
    } else {
        process
    };
    let saved = if call.oldset != 0 {
        process
    } else {
        buf
    };
    (mask, saved)
}

/// Builds the system-call arguments that save the process mask into, or
/// restore it from, the signal set at `addr`.
pub fn mask_call(dir: MaskDirection, addr: usize) -> (r: MaskCall)
    ensures
        r == mask_call_spec(dir, addr),
{
    let (set, oldset) = match dir {
        MaskDirection::Save => (0, addr),
        MaskDirection::Restore => (addr, 0),
    };
    MaskCall {
        number: sigprocmask_number(),
        how: setmask_mode(),
        set,
        oldset,
        size: sigset_size(),
    }
}

/// The mask call, if any, that a signal-safe capture makes after its call
/// site returned `ret`, for the buffer whose signal set is at `addr`.
pub fn capture_mask_call(save_mask: bool, ret: u32, addr: usize) -> (r: Option<MaskCall>)
    ensures
        r == capture_mask_call_spec(save_mask, ret, addr),
{
    if save_mask && ret == 0 {
        Some(mask_call(MaskDirection::Save, addr))
    } else {
        None
    }
}

/// The mask call a signal-safe resume makes before it transfers control.
pub fn resume_mask_call(addr: usize) -> (r: MaskCall)
    ensures
        r == mask_call_spec(MaskDirection::Restore, addr),
{
    mask_call(MaskDirection::Restore, addr)
}

} // verus!
