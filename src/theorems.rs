use vstd::prelude::*;

use crate::context::{address_limit, knows, pointer_width, truncate, Width, PC, SP};
use crate::frame::{FrameTrust, StackFrame};
use crate::memory::{lemma_read_fits, ModuleList, StackMemory};
use crate::unwind::{
    after_cfi_spec, lemma_pc_sp_only, lemma_regs_with, after_check_spec, cfi_frame_spec, cfi_walker_spec, get_caller_frame_spec,
    probe_from, scan_frame_spec, scan_plan_spec, validate_spec, Action, CfiStackWalker, Probe,
    ScanPlan, MIN_CODE_ADDRESS,
};

verus! {

/// A callee whose stack pointer is unknown gets neither a call-frame-info
/// request nor a scan.
pub proof fn unknown_stack_pointer_stops_both(
    callee: StackFrame,
    grand_callee: Option<&StackFrame>,
    modules: ModuleList,
)
    requires
        !knows(callee.context.valid, SP as int),
    ensures
        cfi_walker_spec(callee, grand_callee, modules) is None,
        scan_plan_spec(callee) is None,
{
}

/// Call-frame info is taken as it comes, even a near-null program counter;
/// it is the validation that then ends the walk.
pub proof fn cfi_result_checked_only_by_validation(
    callee: StackFrame,
    m: StackMemory,
    w: CfiStackWalker,
)
    ensures
        cfi_frame_spec(w).instruction == w.caller_ctx.regs@[PC as int],
        cfi_frame_spec(w).trust == FrameTrust::CallFrameInfo,
        w.caller_ctx.regs@[PC as int] < 4096 ==> after_cfi_spec(callee, m, Some(w))
            == Action::Finish(None),
{
}

/// On a 32-bit snapshot the scan starts at the stack pointer for the first
/// frame, and four words further up, with four words less of budget, for
/// every later frame.
pub proof fn narrow_scan_skips_spill_words(callee: StackFrame)
    requires
        knows(callee.context.valid, SP as int),
        callee.context.raw.width_spec() == Width::Narrow,
    ensures
        ({
            let sp = truncate(Width::Narrow, callee.context.raw.regs@[SP as int]);
            if callee.trust == FrameTrust::Context {
                scan_plan_spec(callee) == Some(
                    ScanPlan { width: Width::Narrow, start: sp, count: 256 },
                )
            } else if sp + 16 <= u32::MAX {
                scan_plan_spec(callee) == Some(
                    ScanPlan { width: Width::Narrow, start: (sp + 16) as u64, count: (256 - 4) as u64 },
                )
            } else {
                scan_plan_spec(callee) is None
            }
        }),
{
}

/// No scan candidate is near null: words below the code threshold are
/// passed over, whatever the provider would say of them.
pub proof fn scan_skips_near_null(m: StackMemory, plan: ScanPlan, i: int)
    ensures
        probe_from(m, plan, i) matches Some(p) ==> p.candidate >= MIN_CODE_ADDRESS && p.index
            >= i,
    decreases plan.count - i,
{
    if 0 <= i < plan.count {
        lemma_read_fits(m, plan.start + i * pointer_width(plan.width), pointer_width(plan.width));
        scan_skips_near_null(m, plan, i + 1);
    }
}

/// A scanned caller's stack pointer is the candidate's address plus one
/// pointer width, before and after validation, and the scanned frame knows
/// no register but its program counter and stack pointer.
pub proof fn scanned_stack_pointer(callee: StackFrame, m: StackMemory, p: Probe)
    ensures
        scan_frame_spec(callee, p) matches Some(f) ==> f.context.raw.regs@[SP as int] == p.address
            + pointer_width(p.plan.width) && f.context.raw.regs@[PC as int] == p.candidate
            && f.trust == FrameTrust::Scan && forall|i: int|
            0 <= i < 33 ==> (knows(f.context.valid, i) <==> (i == PC || i == SP)),
        scan_frame_spec(callee, p) is None <==> p.address + pointer_width(p.plan.width)
            > address_limit(p.plan.width),
        after_check_spec(callee, m, p, true) matches Action::Finish(Some(g)) ==>
            g.context.raw.regs@[SP as int] == p.address + pointer_width(p.plan.width),
{
    let sp = p.address + pointer_width(p.plan.width);
    lemma_regs_with(p.candidate, sp as u64);
    lemma_pc_sp_only();
}

/// A caller whose stack pointer equals the callee's survives only when the
/// callee is the frame given by the snapshot; a lower one never survives.
pub proof fn stack_must_grow_after_first_frame(callee: StackFrame, f: StackFrame)
    requires
        f.context.raw.regs@[PC as int] >= 4096,
    ensures
        f.context.raw.regs@[SP as int] == callee.context.raw.regs@[SP as int] ==> (validate_spec(
            callee,
            f,
        ) is Some <==> callee.trust == FrameTrust::Context),
        f.context.raw.regs@[SP as int] < callee.context.raw.regs@[SP as int] ==> validate_spec(
            callee,
            f,
        ) is None,
{
}

/// A frame that survives validation reports its program counter less eight,
/// and keeps its registers and trust.
pub proof fn reported_address_is_call_site(callee: StackFrame, f: StackFrame)
    ensures
        validate_spec(callee, f) matches Some(g) ==> g.instruction == f.context.raw.regs@[PC as int]
            - 8 && g.context == f.context && g.trust == f.trust,
{
}

/// A caller program counter of zero ends the walk, whichever strategy found it.
pub proof fn null_caller_ends_walk(
    callee: StackFrame,
    m: StackMemory,
    w: CfiStackWalker,
    p: Probe,
    plausible: bool,
)
    requires
        w.caller_ctx.regs@[PC as int] == 0,
    ensures
        after_cfi_spec(callee, m, Some(w)) == Action::Finish(None),
        p.candidate == 0 ==> after_check_spec(callee, m, p, true) == Action::Finish(None),
{
    let sp = p.address + pointer_width(p.plan.width);
    lemma_regs_with(p.candidate, sp as u64);
}

/// One unwind step is a function of its inputs: equal inputs give equal
/// actions at every stage.
pub proof fn unwind_step_is_deterministic(
    callee: StackFrame,
    grand_callee: Option<&StackFrame>,
    stack: Option<&StackMemory>,
    modules: ModuleList,
    m: StackMemory,
    walked: Option<CfiStackWalker>,
    p: Probe,
    plausible: bool,
    callee2: StackFrame,
    grand_callee2: Option<&StackFrame>,
    stack2: Option<&StackMemory>,
    modules2: ModuleList,
    m2: StackMemory,
    walked2: Option<CfiStackWalker>,
    p2: Probe,
    plausible2: bool,
)
    requires
        callee == callee2,
        grand_callee == grand_callee2,
        stack == stack2,
        modules == modules2,
        m == m2,
        walked == walked2,
        p == p2,
        plausible == plausible2,
    ensures
        get_caller_frame_spec(callee, grand_callee, stack, modules) == get_caller_frame_spec(
            callee2,
            grand_callee2,
            stack2,
            modules2,
        ),
        after_cfi_spec(callee, m, walked) == after_cfi_spec(callee2, m2, walked2),
        after_check_spec(callee, m, p, plausible) == after_check_spec(callee2, m2, p2, plausible2),
{
}

} // verus!
