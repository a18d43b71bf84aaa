use vstd::prelude::*;

use crate::context::{
    address_limit, callee_forwarded_regs, forwarded_spec, is_forwarded_set, knows, pointer_width, truncate,
    MipsContext, Validity, Width, PC, SP,
};
use crate::frame::{frame_of, FrameContext, FrameTrust, StackFrame};
use crate::memory::{module_at_spec, read_spec, ModuleList, StackMemory};

verus! {

broadcast use vstd::array::group_array_axioms;

/// Addresses below this are taken to be null rather than code.
pub const MIN_CODE_ADDRESS: u64 = 0x1000;

/// Bytes of stack that a scan may examine.
pub const MAX_SCAN_BYTES: u64 = 1024;

/// Argument spill words that the 32-bit ABI reserves in every non-leaf frame.
pub const MIN_ARG_WORDS: u64 = 4;

/// Distance from a call instruction to the return address it leaves in `ra`.
pub const RETURN_OFFSET: u64 = 8;

// ---------------------------------------------------------------------------
// Validation

/// The end-of-stack rules applied to a freshly recovered caller frame: a
/// near-null program counter or a stack pointer that did not grow ends the
/// walk, except that the first frame may keep its stack pointer (a leaf that
/// never touched the stack); a surviving frame reports the call site.
pub open spec fn validate_spec(callee: StackFrame, frame: StackFrame) -> Option<StackFrame> {
    let ip = frame.context.raw.regs@[PC as int];
    let sp = frame.context.raw.regs@[SP as int];
    let last_sp = callee.context.raw.regs@[SP as int];
    if ip < 4096 {
        None
    } else if sp <= last_sp && !(callee.trust == FrameTrust::Context && sp == last_sp) {
        None
    } else {
        Some(StackFrame { instruction: (ip - RETURN_OFFSET) as u64, ..frame })
    }
}

/// Applies the end-of-stack rules to `frame`, the caller recovered for `callee`.
pub fn validate(callee: &StackFrame, frame: StackFrame) -> (r: Option<StackFrame>)
    ensures
        r == validate_spec(*callee, frame),
        frame.context.raw.regs@[PC as int] < 4096 ==> r is None,
        frame.context.raw.regs@[SP as int] == callee.context.raw.regs@[SP as int] ==> (r is Some
            <==> callee.trust == FrameTrust::Context && frame.context.raw.regs@[PC as int] >= 4096),
        frame.context.raw.regs@[SP as int] < callee.context.raw.regs@[SP as int] ==> r is None,
        r matches Some(f) ==> f.instruction == frame.context.raw.regs@[PC as int] - 8 && f.context
            == frame.context && f.trust == frame.trust,
{
    let ip = frame.context.raw.regs[PC];
    if ip < 4096 {
        return None;
    }
    let sp = frame.context.raw.regs[SP];
    let last_sp = callee.context.raw.regs[SP];
    if sp <= last_sp {
        let is_leaf = callee.trust == FrameTrust::Context && sp == last_sp;
        if !is_leaf {
            return None;
        }
    }
    Some(StackFrame { instruction: ip - RETURN_OFFSET, ..frame })
}

// ---------------------------------------------------------------------------
// Call-frame info

/// The working state handed to the symbol provider for evaluating call-frame
/// info: the callee's registers, and the caller's registers seeded as a copy
/// of the callee's with only the forwarded callee-saved registers marked
/// valid. The provider updates `caller_ctx` and `caller_validity` in place.
#[derive(Clone, Copy, Debug)]
pub struct CfiStackWalker {
    /// Index, in the module list, of the module covering `instruction`.
    pub module: usize,
    pub instruction: u64,
    pub has_grand_callee: bool,
    pub grand_callee_parameter_size: u32,
    pub callee_ctx: MipsContext,
    pub callee_validity: Validity,
    pub caller_ctx: MipsContext,
    pub caller_validity: [bool; 33],
}

pub open spec fn grand_callee_parameter_size(g: Option<&StackFrame>) -> u32 {
    match g {
        Some(f) => match f.parameter_size {
            Some(p) => p,
            None => 0,
        },
        None => 0,
    }
}

/// The request for call-frame info, or `None` where the callee's stack pointer
/// is unknown or no module covers its instruction.
pub open spec fn cfi_walker_spec(
    callee: StackFrame,
    grand_callee: Option<&StackFrame>,
    modules: ModuleList,
) -> Option<CfiStackWalker> {
    if !knows(callee.context.valid, SP as int) {
        None
    } else {
        match module_at_spec(modules, callee.instruction as int) {
            None => None,
            Some(m) => Some(
                CfiStackWalker {
                    module: m,
                    instruction: callee.instruction,
                    has_grand_callee: grand_callee is Some,
                    grand_callee_parameter_size: grand_callee_parameter_size(grand_callee),
                    callee_ctx: callee.context.raw,
                    callee_validity: callee.context.valid,
                    caller_ctx: callee.context.raw,
                    caller_validity: forwarded_spec(callee.context.valid),
                },
            ),
        }
    }
}

/// Prepares the call-frame-info request for `callee`.
pub fn get_caller_by_cfi(
    callee: &StackFrame,
    grand_callee: Option<&StackFrame>,
    modules: &ModuleList,
) -> (r: Option<CfiStackWalker>)
    ensures
        r == cfi_walker_spec(*callee, grand_callee, *modules),
        !knows(callee.context.valid, SP as int) ==> r is None,
{
    let ctx = &callee.context.raw;
    let valid = &callee.context.valid;
    let _last_sp = ctx.get_register(SP, valid)?;
    let module = modules.module_at_address(callee.instruction)?;
    let grand_callee_parameter_size = match grand_callee {
        Some(f) => match f.parameter_size {
            Some(p) => p,
            None => 0,
        },
        None => 0,
    };
    let caller_validity = callee_forwarded_regs(valid);
    Some(
        CfiStackWalker {
            module,
            instruction: callee.instruction,
            has_grand_callee: grand_callee.is_some(),
            grand_callee_parameter_size,
            callee_ctx: *ctx,
            callee_validity: *valid,
            caller_ctx: *ctx,
            caller_validity,
        },
    )
}

/// The caller frame built from a successful call-frame-info evaluation,
/// taken as it stands: checking it is left to `validate`.
pub open spec fn cfi_frame_spec(w: CfiStackWalker) -> StackFrame {
    frame_of(
        FrameContext { raw: w.caller_ctx, valid: Validity::Only(w.caller_validity) },
        FrameTrust::CallFrameInfo,
    )
}

/// The caller frame that an evaluated request `w` describes.
pub fn cfi_frame(w: &CfiStackWalker) -> (r: StackFrame)
    ensures
        r == cfi_frame_spec(*w),
        r.instruction == w.caller_ctx.regs@[PC as int],
        r.trust == FrameTrust::CallFrameInfo,
{
    let context = FrameContext { raw: w.caller_ctx, valid: Validity::Only(w.caller_validity) };
    StackFrame::from_context(context, FrameTrust::CallFrameInfo)
}

// ---------------------------------------------------------------------------
// Stack scanning

/// Where a scan looks: `count` pointer-sized words from address `start`.
#[derive(Clone, Copy, Debug, PartialEq, Eq, Structural)]
pub struct ScanPlan {
    pub width: Width,
    pub start: u64,
    pub count: u64,
}

/// A stack word that may be a return address: the word at `address`, the
/// `index`-th of `plan`, holds `candidate`, which is not near null.
#[derive(Clone, Copy, Debug, PartialEq, Eq, Structural)]
pub struct Probe {
    pub plan: ScanPlan,
    pub index: u64,
    pub address: u64,
    pub candidate: u64,
}

/// Where the scan for `callee`'s caller runs: from the stack pointer over
/// the scan budget; a 32-bit frame that is not the first one skips the
/// argument spill words. `None` where the stack pointer is unknown or the
/// start address overflows.
pub open spec fn scan_plan_spec(callee: StackFrame) -> Option<ScanPlan> {
    let ctx = callee.context.raw;
    let w = ctx.width_spec();
    let sp = truncate(w, ctx.regs@[SP as int]);
    if !knows(callee.context.valid, SP as int) {
        None
    } else {
        match w {
            Width::Wide => Some(ScanPlan { width: w, start: sp, count: 128 }),
            Width::Narrow => if callee.trust != FrameTrust::Context {
                if sp + 16 > u32::MAX {
                    None
                } else {
                    Some(ScanPlan { width: w, start: (sp + 16) as u64, count: 252 })
                }
            } else {
                Some(ScanPlan { width: w, start: sp, count: 256 })
            },
        }
    }
}

/// The first word at or after index `i` of `plan` that is not near null.
/// `None` where the plan runs out first, or an address on the way overflows
/// the register width or leaves the stack image.
pub open spec fn probe_from(m: StackMemory, plan: ScanPlan, i: int) -> Option<Probe>
    decreases plan.count - i,
{
    if i < 0 || i >= plan.count {
        None
    } else {
        let address = plan.start + i * pointer_width(plan.width);
        if address > address_limit(plan.width) {
            None
        } else {
            match read_spec(m, address, pointer_width(plan.width)) {
                None => None,
                Some(v) => if v < MIN_CODE_ADDRESS {
                    probe_from(m, plan, i + 1)
                } else {
                    Some(
                        Probe {
                            plan,
                            index: i as u64,
                            address: address as u64,
                            candidate: v as u64,
                        },
                    )
                },
            }
        }
    }
}

/// Plans the scan for `callee`'s caller.
pub fn scan_plan(callee: &StackFrame) -> (r: Option<ScanPlan>)
    ensures
        r == scan_plan_spec(*callee),
        !knows(callee.context.valid, SP as int) ==> r is None,
        r matches Some(p) ==> p.count <= 256,
{
    let ctx = &callee.context.raw;
    let valid = &callee.context.valid;
    let sp = ctx.get_register(SP, valid)?;
    match ctx.width() {
        Width::Wide => Some(
            ScanPlan { width: Width::Wide, start: sp, count: MAX_SCAN_BYTES / 8 },
        ),
        Width::Narrow => {
            let mut start = sp;
            let mut count = MAX_SCAN_BYTES / 4;
            if callee.trust != FrameTrust::Context {
                if sp > 0xffff_ffff - MIN_ARG_WORDS * 4 {
                    return None;
                }
                start = sp + MIN_ARG_WORDS * 4;
                count = count - MIN_ARG_WORDS;
            }
            Some(ScanPlan { width: Width::Narrow, start, count })
        },
    }
}

/// The next scan candidate of `plan` at or after index `from`.
pub fn next_probe(stack: &StackMemory, plan: ScanPlan, from: u64) -> (r: Option<Probe>)
    requires
        plan.count <= 256,
    ensures
        r == probe_from(*stack, plan, from as int),
        r matches Some(p) ==> p.candidate >= MIN_CODE_ADDRESS && p.plan == plan && p.index
            < plan.count,
{
    let width: u64 = match plan.width {
        Width::Narrow => 4,
        Width::Wide => 8,
    };
    let limit: u64 = match plan.width {
        Width::Narrow => 0xffff_ffff,
        Width::Wide => 0xffff_ffff_ffff_ffff,
    };
    let mut i = from;
    while i < plan.count
        invariant
            plan.count <= 256,
            from <= i,
            width == pointer_width(plan.width),
            limit == address_limit(plan.width),
            probe_from(*stack, plan, from as int) == probe_from(*stack, plan, i as int),
        decreases plan.count - i,
    {
        let offset = i * width;
        if plan.start > limit - offset {
            return None;
        }
        let address = plan.start + offset;
        let n: usize = if width == 4 {
            4
        } else {
            8
        };
        assert(n as int == pointer_width(plan.width));
        let value = match stack.read(address, n) {
            Some(v) => v,
            None => {
                return None;
            },
        };
        if value >= MIN_CODE_ADDRESS {
            return Some(Probe { plan, index: i, address, candidate: value });
        }
        i = i + 1;
    }
    None
}

/// The caller frame that an accepted probe describes: its candidate is the
/// caller's program counter and the caller's stack begins just past the
/// word that held it; no other register is known, and the context flags are
/// the callee's, so the caller is read at the same width. `None` where that
/// stack pointer overflows.
pub open spec fn scan_frame_spec(callee: StackFrame, p: Probe) -> Option<StackFrame> {
    let sp = p.address + pointer_width(p.plan.width);
    if sp > address_limit(p.plan.width) {
        None
    } else {
        Some(
            frame_of(
                FrameContext {
                    raw: MipsContext {
                        context_flags: callee.context.raw.context_flags,
                        regs: regs_with(p.candidate, sp as u64),
                    },
                    valid: Validity::Only(pc_sp_only()),
                },
                FrameTrust::Scan,
            ),
        )
    }
}

/// Whether `a` holds `pc` and `sp` in their registers and zero elsewhere.
pub open spec fn holds_only(a: [u64; 33], pc: u64, sp: u64) -> bool {
    forall|i: int|
        0 <= i < 33 ==> a@[i] == (if i == PC {
            pc
        } else if i == SP {
            sp
        } else {
            0
        })
}

pub open spec fn regs_with(pc: u64, sp: u64) -> [u64; 33] {
    choose|a: [u64; 33]| holds_only(a, pc, sp)
}

/// Whether `a` marks exactly the program counter and the stack pointer.
pub open spec fn marks_pc_sp(a: [bool; 33]) -> bool {
    forall|i: int| 0 <= i < 33 ==> a@[i] == (i == PC || i == SP)
}

pub open spec fn pc_sp_only() -> [bool; 33] {
    choose|a: [bool; 33]| marks_pc_sp(a)
}

/// `regs_with(pc, sp)` holds `pc` and `sp` and zero elsewhere.
pub proof fn lemma_regs_with(pc: u64, sp: u64)
    ensures
        holds_only(regs_with(pc, sp), pc, sp),
{
    let z = vstd::array::spec_array_fill_for_copy_type::<u64, 33>(0u64);
    let a = vstd::array::spec_array_update(
        vstd::array::spec_array_update(z, PC as int, pc),
        SP as int,
        sp,
    );
    assert(holds_only(a, pc, sp));
}

/// `pc_sp_only()` marks exactly the program counter and the stack pointer.
pub proof fn lemma_pc_sp_only()
    ensures
        marks_pc_sp(pc_sp_only()),
{
    let z = vstd::array::spec_array_fill_for_copy_type::<bool, 33>(false);
    let a = vstd::array::spec_array_update(
        vstd::array::spec_array_update(z, PC as int, true),
        SP as int,
        true,
    );
    assert(marks_pc_sp(a));
}

/// Builds the caller frame for an accepted probe.
pub fn scan_frame(callee: &StackFrame, p: &Probe) -> (r: Option<StackFrame>)
    ensures
        r == scan_frame_spec(*callee, *p),
        r matches Some(f) ==> f.trust == FrameTrust::Scan && f.context.raw.regs@[PC as int]
            == p.candidate && f.context.raw.regs@[SP as int] == p.address + pointer_width(
            p.plan.width,
        ),
{
    let (width, limit): (u64, u64) = match p.plan.width {
        Width::Narrow => (4, 0xffff_ffff),
        Width::Wide => (8, 0xffff_ffff_ffff_ffff),
    };
    if p.address > limit - width {
        return None;
    }
    let sp = p.address + width;
    let mut regs = [0u64; 33];
    regs[PC] = p.candidate;
    regs[SP] = sp;
    let mut valid = [false; 33];
    valid[PC] = true;
    valid[SP] = true;
    proof {
        assert(holds_only(regs, p.candidate, sp));
        let a = regs_with(p.candidate, sp);
        assert(holds_only(a, p.candidate, sp));
        assert forall|j: int| 0 <= j < 33 implies regs@[j] == a@[j] by {}
        assert(regs@ =~= a@);
        assert(marks_pc_sp(valid));
        let b = pc_sp_only();
        assert(marks_pc_sp(b));
        assert forall|j: int| 0 <= j < 33 implies valid@[j] == b@[j] by {}
        assert(valid@ =~= b@);
        assert(regs == a);
        assert(valid == b);
    }
    let raw = MipsContext { context_flags: callee.context.raw.context_flags, regs };
    let context = FrameContext { raw, valid: Validity::Only(valid) };
    Some(StackFrame::from_context(context, FrameTrust::Scan))
}

// ---------------------------------------------------------------------------
// One unwind step
//
// Recovering a caller asks the symbol provider questions that may suspend:
// evaluate call-frame info, and judge whether an address looks like code.
// The step is therefore a small state machine. `get_caller_frame` starts it;
// each action other than `Finish` is answered by the driver, which then calls
// `resume_after_cfi` or `resume_after_check` with the answer.

/// What the driver of an unwind step does next.
#[derive(Clone, Copy, Debug)]
pub enum Action {
    /// Have the symbol provider evaluate call-frame info for the walker's
    /// module and instruction, updating the walker's caller registers, then
    /// call `resume_after_cfi` with the walker, or with `None` on failure.
    EvaluateCfi(CfiStackWalker),
    /// Ask the symbol provider whether the probe's candidate looks like a
    /// code address, then call `resume_after_check` with the answer.
    CheckInstruction(Probe),
    /// The step is over: the caller frame, or `None` at the end of the stack.
    Finish(Option<StackFrame>),
}

pub open spec fn scan_action_spec(m: StackMemory, plan: ScanPlan, i: int) -> Action {
    match probe_from(m, plan, i) {
        Some(p) => Action::CheckInstruction(p),
        None => Action::Finish(None),
    }
}

/// The scan that follows when call-frame info gives no caller.
pub open spec fn begin_scan_spec(callee: StackFrame, m: StackMemory) -> Action {
    match scan_plan_spec(callee) {
        None => Action::Finish(None),
        Some(plan) => scan_action_spec(m, plan, 0),
    }
}

pub open spec fn get_caller_frame_spec(
    callee: StackFrame,
    grand_callee: Option<&StackFrame>,
    stack: Option<&StackMemory>,
    modules: ModuleList,
) -> Action {
    match stack {
        None => Action::Finish(None),
        Some(m) => match cfi_walker_spec(callee, grand_callee, modules) {
            Some(w) => Action::EvaluateCfi(w),
            None => begin_scan_spec(callee, *m),
        },
    }
}

pub open spec fn after_cfi_spec(
    callee: StackFrame,
    m: StackMemory,
    walked: Option<CfiStackWalker>,
) -> Action {
    match walked {
        Some(w) => Action::Finish(validate_spec(callee, cfi_frame_spec(w))),
        None => begin_scan_spec(callee, m),
    }
}

pub open spec fn after_check_spec(
    callee: StackFrame,
    m: StackMemory,
    p: Probe,
    plausible: bool,
) -> Action {
    if plausible {
        match scan_frame_spec(callee, p) {
            None => Action::Finish(None),
            Some(f) => Action::Finish(validate_spec(callee, f)),
        }
    } else {
        scan_action_spec(m, p.plan, p.index + 1)
    }
}

fn begin_scan(callee: &StackFrame, stack: &StackMemory) -> (r: Action)
    ensures
        r == begin_scan_spec(*callee, *stack),
        r matches Action::CheckInstruction(p) ==> p.plan.count <= 256,
{
    match scan_plan(callee) {
        None => Action::Finish(None),
        Some(plan) => match next_probe(stack, plan, 0) {
            Some(p) => Action::CheckInstruction(p),
            None => Action::Finish(None),
        },
    }
}

/// Starts recovering the caller of `callee`: call-frame info first where it
/// applies, else a stack scan. Without a stack image there is no caller.
pub fn get_caller_frame(
    callee: &StackFrame,
    grand_callee: Option<&StackFrame>,
    stack: Option<&StackMemory>,
    modules: &ModuleList,
) -> (r: Action)
    ensures
        r == get_caller_frame_spec(*callee, grand_callee, stack, *modules),
        r matches Action::CheckInstruction(p) ==> p.plan.count <= 256,
{
    let stack = match stack {
        Some(m) => m,
        None => {
            return Action::Finish(None);
        },
    };
    match get_caller_by_cfi(callee, grand_callee, modules) {
        Some(w) => Action::EvaluateCfi(w),
        None => begin_scan(callee, stack),
    }
}

/// Continues after call-frame evaluation: `walked` is the evaluated walker,
/// or `None` where the provider could not evaluate call-frame info there.
pub fn resume_after_cfi(
    callee: &StackFrame,
    stack: &StackMemory,
    walked: Option<CfiStackWalker>,
) -> (r: Action)
    ensures
        r == after_cfi_spec(*callee, *stack, walked),
        r matches Action::CheckInstruction(p) ==> p.plan.count <= 256,
{
    match walked {
        Some(w) => Action::Finish(validate(callee, cfi_frame(&w))),
        None => begin_scan(callee, stack),
    }
}

/// Continues a scan after the provider judged the probe's candidate:
/// a plausible candidate gives the caller frame, any other moves the scan on.
pub fn resume_after_check(
    callee: &StackFrame,
    stack: &StackMemory,
    p: &Probe,
    plausible: bool,
) -> (r: Action)
    requires
        p.plan.count <= 256,
    ensures
        r == after_check_spec(*callee, *stack, *p, plausible),
        r matches Action::CheckInstruction(q) ==> q.plan.count <= 256,
{
    if plausible {
        match scan_frame(callee, p) {
            None => Action::Finish(None),
            Some(f) => Action::Finish(validate(callee, f)),
        }
    } else if p.index >= p.plan.count {
        Action::Finish(None)
    } else {
        match next_probe(stack, p.plan, p.index + 1) {
            Some(q) => Action::CheckInstruction(q),
            None => Action::Finish(None),
        }
    }
}

} // verus!
