use vstd::prelude::*;

use crate::context::Context;
use crate::jump_buf::{landing_of, JumpBuf, Landing, JUMP_BUF_SIZE};
use crate::mask::SIGSET_SIZE;

verus! {

/// A jump buffer that also holds the process signal mask.
///
/// Besides the embedded jump buffer it has a word for the capture call's
/// return address and a scratch word, both used while a capture runs, and a
/// byte buffer the size of the kernel's signal set. The signal set holds a
/// valid mask only between a capture that saved it and the matching resume.
pub struct SigJumpBuf {
    jmp_buf: JumpBuf,
    link: usize,
    scratch: usize,
    ss: [u8; SIGSET_SIZE],
}

impl SigJumpBuf {
    /// The slots of the embedded jump buffer.
    pub closed spec fn slots(&self) -> Seq<usize> {
        self.jmp_buf@
    }

    /// The bytes of the signal-set buffer.
    pub closed spec fn saved_mask(&self) -> Seq<u8> {
        self.ss@
    }

    /// A zero-initialised buffer.
    pub fn new() -> (r: SigJumpBuf)
        ensures
            r.slots() == Seq::new(JUMP_BUF_SIZE as nat, |i: int| 0usize),
            r.saved_mask() == Seq::new(SIGSET_SIZE as nat, |i: int| 0u8),
    {
        let r = SigJumpBuf { jmp_buf: JumpBuf::new(), link: 0, scratch: 0, ss: [0u8; SIGSET_SIZE] };
        assert(r.saved_mask() =~= Seq::new(SIGSET_SIZE as nat, |i: int| 0u8));
        r
    }

    /// The embedded jump buffer, which a plain resume reads.
    pub fn jump_buf(&self) -> (r: &JumpBuf)
        ensures
            r@ == self.slots(),
    {
        &self.jmp_buf
    }

    /// Records the resumption point `at` in the embedded jump buffer and
    /// yields `0`; the signal set is left for the kernel to fill.
    pub fn capture(&mut self, at: &Context) -> (r: u32)
        ensures
            r == 0,
            final(self).slots() == at.slots(),
            final(self).saved_mask() == old(self).saved_mask(),
    {
        self.jmp_buf.capture(at)
    }

    /// Where resuming from this buffer with `code` lands.
    pub fn resume(&self, code: u32) -> (r: Landing)
        ensures
            r == landing_of(self.slots(), code),
    {
        self.jmp_buf.resume(code)
    }

    /// A copy of the signal-set buffer.
    pub fn mask_bytes(&self) -> (r: [u8; SIGSET_SIZE])
        ensures
            r@ == self.saved_mask(),
    {
        self.ss
    }
}

} // verus!
