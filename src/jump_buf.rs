use vstd::prelude::*;

use crate::context::Context;

verus! {

/// Number of machine words in a jump buffer.
pub const JUMP_BUF_SIZE: usize = 8;

/// Slot of each saved value in a jump buffer.
pub const SLOT_RBX: usize = 0;
pub const SLOT_RBP: usize = 1;
pub const SLOT_R12: usize = 2;
pub const SLOT_R13: usize = 3;
pub const SLOT_R14: usize = 4;
pub const SLOT_R15: usize = 5;
pub const SLOT_SP: usize = 6;
pub const SLOT_PC: usize = 7;

/// The code that a capture call site yields when resumed with `code`: a zero
/// code is taken as one, so that a resumed capture never looks like a fresh one.
pub open spec fn landing_code(code: u32) -> u32 {
    if code == 0 {
        1
    } else {
        code
    }
}

/// Coerces a resume code to the nonzero value the capture call site yields.
pub fn resume_code(code: u32) -> (r: u32)
    ensures
        r == landing_code(code),
        r != 0,
{
    if code == 0 {
        1
    } else {
        code
    }
}

/// Where a resume lands: the context to install and the value that the
/// capture call expression then evaluates to.
#[derive(Clone, Copy, Debug, PartialEq, Eq, Structural)]
pub struct Landing {
    pub context: Context,
    pub code: u32,
}

/// Where resuming from a buffer holding the slots `b` with `code` lands.
pub open spec fn landing_of(b: Seq<usize>, code: u32) -> Landing {
    Landing { context: Context::from_slots(b), code: landing_code(code) }
}

/// A fixed-size record of the state needed to resume a stack frame.
///
/// It is valid for resumption only while the frame that captured into it is
/// live; this cannot be checked and is the caller's obligation.
pub struct JumpBuf([usize; JUMP_BUF_SIZE]);

impl View for JumpBuf {
    type V = Seq<usize>;

    closed spec fn view(&self) -> Seq<usize> {
        self.0@
    }
}

impl JumpBuf {
    /// A zero-initialised buffer.
    pub fn new() -> (r: JumpBuf)
        ensures
            r@ == Seq::new(JUMP_BUF_SIZE as nat, |i: int| 0usize),
    {
        let r = JumpBuf([0usize; JUMP_BUF_SIZE]);
        assert(r@ =~= Seq::new(JUMP_BUF_SIZE as nat, |i: int| 0usize));
        r
    }

    /// Records the resumption point `at` and yields `0`, the value of a
    /// capture call on its initial return.
    pub fn capture(&mut self, at: &Context) -> (r: u32)
        ensures
            r == 0,
            final(self)@ == at.slots(),
    {
        self.0 = [at.rbx, at.rbp, at.r12, at.r13, at.r14, at.r15, at.sp, at.pc];
        assert(self@ =~= at.slots());
        0
    }

    /// The resumption point recorded in the buffer.
    pub fn context(&self) -> (r: Context)
        ensures
            r == Context::from_slots(self@),
    {
        Context {
            rbx: self.0[SLOT_RBX],
            rbp: self.0[SLOT_RBP],
            r12: self.0[SLOT_R12],
            r13: self.0[SLOT_R13],
            r14: self.0[SLOT_R14],
            r15: self.0[SLOT_R15],
            sp: self.0[SLOT_SP],
            pc: self.0[SLOT_PC],
        }
    }

    /// Where resuming from this buffer with `code` lands: the recorded
    /// context, with the capture call site yielding the coerced code.
    pub fn resume(&self, code: u32) -> (r: Landing)
        ensures
            r == landing_of(self@, code),
    {
        Landing { context: self.context(), code: resume_code(code) }
    }
}

} // verus!
