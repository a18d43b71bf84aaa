use vstd::prelude::*;

use crate::context::{MipsContext, Validity, PC};

verus! {

/// How a frame was recovered, from most to least certain: given directly by
/// the snapshot, derived from call-frame info, or found by scanning the stack.
#[derive(Clone, Copy, Debug, PartialEq, Eq, Structural)]
pub enum FrameTrust {
    Scan,
    CallFrameInfo,
    Context,
}

/// A register context together with the registers it is known to hold.
#[derive(Clone, Copy, Debug)]
pub struct FrameContext {
    pub raw: MipsContext,
    pub valid: Validity,
}

/// One frame of a call stack.
#[derive(Clone, Copy, Debug)]
pub struct StackFrame {
    /// The address reported for this frame.
    pub instruction: u64,
    pub context: FrameContext,
    pub trust: FrameTrust,
    /// Size of the arguments this frame's function pops, where known.
    pub parameter_size: Option<u32>,
}

pub open spec fn frame_of(context: FrameContext, trust: FrameTrust) -> StackFrame {
    StackFrame { instruction: context.raw.regs@[PC as int], context, trust, parameter_size: None }
}

impl StackFrame {
    /// A frame whose reported address is the context's program counter.
    pub fn from_context(context: FrameContext, trust: FrameTrust) -> (r: StackFrame)
        ensures
            r == frame_of(context, trust),
    {
        StackFrame { instruction: context.raw.regs[PC], context, trust, parameter_size: None }
    }
}

} // verus!
