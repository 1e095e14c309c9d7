use vstd::prelude::*;

verus! {

/// The calling-convention state that identifies a resumption point: the
/// callee-preserved registers of the x86_64 System V convention, the stack
/// pointer of the capturing frame as it was before the capture call, and the
/// address in that frame to which the capture call returns.
#[derive(Clone, Copy, Debug, PartialEq, Eq, Structural)]
pub struct Context {
    pub rbx: usize,
    pub rbp: usize,
    pub r12: usize,
    pub r13: usize,
    pub r14: usize,
    pub r15: usize,
    pub sp: usize,
    pub pc: usize,
}

impl Context {
    /// The context as the ordered slots of a jump buffer.
    pub open spec fn slots(self) -> Seq<usize> {
        seq![self.rbx, self.rbp, self.r12, self.r13, self.r14, self.r15, self.sp, self.pc]
    }

    /// The context that a sequence of jump-buffer slots describes.
    pub open spec fn from_slots(s: Seq<usize>) -> Context {
        Context {
            rbx: s[0],
            rbp: s[1],
            r12: s[2],
            r13: s[3],
            r14: s[4],
            r15: s[5],
            sp: s[6],
            pc: s[7],
        }
    }
}

} // verus!
