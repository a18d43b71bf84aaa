use mips_unwind::context::{
    callee_forwarded_regs, MipsContext, Validity, Width, CONTEXT_MIPS64, FP, GP, PC, RA, S0, S1, S7,
    SP,
};
use mips_unwind::frame::{FrameContext, FrameTrust, StackFrame};
use mips_unwind::memory::{Module, ModuleList, StackMemory};
use mips_unwind::unwind::{
    cfi_frame, get_caller_by_cfi, get_caller_frame, next_probe, resume_after_cfi,
    resume_after_check, scan_frame, scan_plan, validate, Action, ScanPlan,
};

const NARROW_FLAGS: u32 = 0x0004_0000;
const WIDE_FLAGS: u32 = 0x0004_0000 | CONTEXT_MIPS64;

fn frame(flags: u32, pc: u64, sp: u64, valid: Validity, trust: FrameTrust) -> StackFrame {
    let mut raw = MipsContext::new(flags);
    raw.regs[PC] = pc;
    raw.regs[SP] = sp;
    StackFrame { instruction: pc, context: FrameContext { raw, valid }, trust, parameter_size: None }
}

fn only(regs: &[usize]) -> Validity {
    let mut m = [false; 33];
    for &r in regs {
        m[r] = true;
    }
    Validity::Only(m)
}

fn code_modules() -> ModuleList {
    ModuleList { modules: vec![Module { base_address: 0x40_0000, size: 0x10_0000 }] }
}

/// A stack image at `base` holding the given 32-bit little-endian words.
fn stack32(base: u64, words: &[u32]) -> StackMemory {
    let mut bytes = Vec::new();
    for w in words {
        bytes.extend_from_slice(&w.to_le_bytes());
    }
    StackMemory { base_address: base, bytes, big_endian: false }
}

fn stack64(base: u64, words: &[u64]) -> StackMemory {
    let mut bytes = Vec::new();
    for w in words {
        bytes.extend_from_slice(&w.to_le_bytes());
    }
    StackMemory { base_address: base, bytes, big_endian: false }
}

#[test]
fn width_follows_the_mips64_flag() {
    assert_eq!(MipsContext::new(NARROW_FLAGS).width(), Width::Narrow);
    assert_eq!(MipsContext::new(WIDE_FLAGS).width(), Width::Wide);
}

#[test]
fn narrow_context_truncates_registers() {
    let mut c = MipsContext::new(NARROW_FLAGS);
    c.set_register(S0, 0x1_2345_6789);
    assert_eq!(c.regs[S0], 0x2345_6789);
    c.regs[GP] = 0xffff_ffff_0000_0010;
    assert_eq!(c.get_register_always(GP), 0x10);
    assert_eq!(c.get_register(GP, &only(&[SP])), None);
    assert_eq!(c.get_register(GP, &Validity::All), Some(0x10));
    let mut w = MipsContext::new(WIDE_FLAGS);
    w.set_register(S0, 0x1_2345_6789);
    assert_eq!(w.get_register(S0, &only(&[S0])), Some(0x1_2345_6789));
}

#[test]
fn forwarded_registers_are_known_callee_saved_ones() {
    let all = callee_forwarded_regs(&Validity::All);
    for r in 0..33 {
        let expected = (S0..=S7).contains(&r) || r == GP || r == FP;
        assert_eq!(all[r], expected, "register {}", r);
    }
    assert!(!all[SP] && !all[PC] && !all[RA]);
    let some = callee_forwarded_regs(&only(&[S0, S7, SP, PC, RA]));
    for r in 0..33 {
        assert_eq!(some[r], r == S0 || r == S7, "register {}", r);
    }
}

#[test]
fn memory_reads_little_endian_within_bounds() {
    let bytes = vec![0x78, 0x56, 0x34, 0x12, 0xef, 0xcd, 0xab, 0x90];
    let m = StackMemory { base_address: 0x1000, bytes, big_endian: false };
    assert_eq!(m.read(0x1000, 4), Some(0x1234_5678));
    assert_eq!(m.read(0x1000, 8), Some(0x90ab_cdef_1234_5678));
    assert_eq!(m.read(0x1004, 4), Some(0x90ab_cdef));
    assert_eq!(m.read(0x1005, 4), None);
    assert_eq!(m.read(0xfff, 4), None);
    assert_eq!(m.read(u64::MAX, 8), None);
}

#[test]
fn memory_reads_big_endian_when_marked() {
    let bytes = vec![0x12, 0x34, 0x56, 0x78, 0x90, 0xab, 0xcd, 0xef];
    let m = StackMemory { base_address: 0x2000, bytes, big_endian: true };
    assert_eq!(m.read(0x2000, 4), Some(0x1234_5678));
    assert_eq!(m.read(0x2000, 8), Some(0x1234_5678_90ab_cdef));
    assert_eq!(m.read(0x2004, 4), Some(0x90ab_cdef));
    assert_eq!(m.read(0x2005, 4), None);
}

#[test]
fn module_lookup_finds_the_covering_module() {
    let l = ModuleList {
        modules: vec![
            Module { base_address: 0x1000, size: 0x100 },
            Module { base_address: 0x2000, size: 0x100 },
        ],
    };
    assert_eq!(l.module_at_address(0x1000), Some(0));
    assert_eq!(l.module_at_address(0x20ff), Some(1));
    assert_eq!(l.module_at_address(0x2100), None);
    assert_eq!(l.module_at_address(0x10), None);
}

#[test]
fn unknown_stack_pointer_gives_neither_cfi_nor_scan() {
    let callee = frame(NARROW_FLAGS, 0x40_1000, 0x8000, only(&[PC]), FrameTrust::Context);
    assert!(get_caller_by_cfi(&callee, None, &code_modules()).is_none());
    assert!(scan_plan(&callee).is_none());
    let stack = stack32(0x8000, &[0x40_2000; 8]);
    assert!(matches!(
        get_caller_frame(&callee, None, Some(&stack), &code_modules()),
        Action::Finish(None)
    ));
}

#[test]
fn no_stack_image_means_no_caller() {
    let callee = frame(NARROW_FLAGS, 0x40_1000, 0x8000, Validity::All, FrameTrust::Context);
    assert!(matches!(get_caller_frame(&callee, None, None, &code_modules()), Action::Finish(None)));
}

#[test]
fn cfi_request_seeds_caller_from_callee() {
    let mut callee = frame(NARROW_FLAGS, 0x40_1000, 0x8000, only(&[PC, SP, S1, GP]), FrameTrust::Context);
    callee.context.raw.regs[S1] = 77;
    let mut grand = frame(NARROW_FLAGS, 0x40_0100, 0x7000, Validity::All, FrameTrust::Context);
    grand.parameter_size = Some(12);
    let w = get_caller_by_cfi(&callee, Some(&grand), &code_modules()).unwrap();
    assert_eq!(w.module, 0);
    assert_eq!(w.instruction, 0x40_1000);
    assert!(w.has_grand_callee);
    assert_eq!(w.grand_callee_parameter_size, 12);
    assert_eq!(w.caller_ctx.regs[S1], 77);
    for r in 0..33 {
        assert_eq!(w.caller_validity[r], r == S1 || r == GP, "register {}", r);
    }
    let w2 = get_caller_by_cfi(&callee, None, &code_modules()).unwrap();
    assert!(!w2.has_grand_callee);
    assert_eq!(w2.grand_callee_parameter_size, 0);
    let outside = frame(NARROW_FLAGS, 0x10_0000, 0x8000, Validity::All, FrameTrust::Context);
    assert!(get_caller_by_cfi(&outside, None, &code_modules()).is_none());
}

#[test]
fn cfi_near_null_result_surfaces_and_validation_stops() {
    let callee = frame(NARROW_FLAGS, 0x40_1000, 0x8000, Validity::All, FrameTrust::Context);
    let mut w = get_caller_by_cfi(&callee, None, &code_modules()).unwrap();
    w.caller_ctx.regs[PC] = 0x20;
    w.caller_ctx.regs[SP] = 0x9000;
    let f = cfi_frame(&w);
    assert_eq!(f.instruction, 0x20);
    assert_eq!(f.trust, FrameTrust::CallFrameInfo);
    let stack = stack32(0x8000, &[0x40_2000; 8]);
    assert!(matches!(resume_after_cfi(&callee, &stack, Some(w)), Action::Finish(None)));
}

#[test]
fn cfi_success_gives_call_site_frame() {
    let callee = frame(NARROW_FLAGS, 0x40_1000, 0x8000, Validity::All, FrameTrust::Context);
    let stack = stack32(0x8000, &[0; 8]);
    let action = get_caller_frame(&callee, None, Some(&stack), &code_modules());
    let mut w = match action {
        Action::EvaluateCfi(w) => w,
        other => panic!("expected a cfi request, got {:?}", other),
    };
    w.caller_ctx.regs[PC] = 0x40_3008;
    w.caller_ctx.regs[SP] = 0x8040;
    match resume_after_cfi(&callee, &stack, Some(w)) {
        Action::Finish(Some(f)) => {
            assert_eq!(f.instruction, 0x40_3000);
            assert_eq!(f.trust, FrameTrust::CallFrameInfo);
            assert_eq!(f.context.raw.regs[SP], 0x8040);
        }
        other => panic!("expected a caller, got {:?}", other),
    }
}

#[test]
fn narrow_scan_plan_skips_spill_words_after_first_frame() {
    let top = frame(NARROW_FLAGS, 0x40_1000, 0x8000, Validity::All, FrameTrust::Context);
    assert_eq!(scan_plan(&top), Some(ScanPlan { width: Width::Narrow, start: 0x8000, count: 256 }));
    let later = frame(NARROW_FLAGS, 0x40_1000, 0x8000, Validity::All, FrameTrust::CallFrameInfo);
    assert_eq!(scan_plan(&later), Some(ScanPlan { width: Width::Narrow, start: 0x8010, count: 252 }));
    let near_top = frame(NARROW_FLAGS, 0x40_1000, 0xffff_fff8, Validity::All, FrameTrust::Scan);
    assert_eq!(scan_plan(&near_top), None);
    let wide = frame(WIDE_FLAGS, 0x40_1000, 0x1_0000_8000, Validity::All, FrameTrust::Scan);
    assert_eq!(scan_plan(&wide), Some(ScanPlan { width: Width::Wide, start: 0x1_0000_8000, count: 128 }));
}

#[test]
fn narrow_scan_of_later_frame_reads_from_sp_plus_sixteen() {
    let callee = frame(NARROW_FLAGS, 0x10, 0x8000, Validity::All, FrameTrust::Scan);
    let stack = stack32(0x8000, &[0x40_1000, 0x40_1004, 0x40_1008, 0x40_100c, 0x40_2000]);
    let plan = scan_plan(&callee).unwrap();
    let p = next_probe(&stack, plan, 0).unwrap();
    assert_eq!(p.address, 0x8010);
    assert_eq!(p.candidate, 0x40_2000);
    assert_eq!(p.index, 0);
}

#[test]
fn scan_passes_over_near_null_words() {
    let callee = frame(NARROW_FLAGS, 0x10, 0x8000, Validity::All, FrameTrust::Context);
    let stack = stack32(0x8000, &[0, 0xfff, 0x1, 0x1000]);
    let plan = scan_plan(&callee).unwrap();
    let p = next_probe(&stack, plan, 0).unwrap();
    assert_eq!(p.index, 3);
    assert_eq!(p.address, 0x800c);
    assert_eq!(p.candidate, 0x1000);
    assert_eq!(next_probe(&stack, plan, 4), None);
}

#[test]
fn scanned_stack_pointer_is_address_plus_width() {
    let callee = frame(WIDE_FLAGS, 0x10, 0x1_0000_8000, Validity::All, FrameTrust::Context);
    let stack = stack64(0x1_0000_8000, &[0, 0x1_0040_2000]);
    let plan = scan_plan(&callee).unwrap();
    let p = next_probe(&stack, plan, 0).unwrap();
    assert_eq!(p.address, 0x1_0000_8008);
    let f = scan_frame(&callee, &p).unwrap();
    assert_eq!(f.context.raw.regs[SP], 0x1_0000_8010);
    assert_eq!(f.context.raw.regs[PC], 0x1_0040_2000);
    assert_eq!(f.trust, FrameTrust::Scan);
    match f.context.valid {
        Validity::Only(m) => {
            for r in 0..33 {
                assert_eq!(m[r], r == PC || r == SP, "register {}", r);
            }
        }
        Validity::All => panic!("a scanned frame knows only pc and sp"),
    }
}

#[test]
fn validator_allows_unchanged_sp_only_for_first_frame() {
    let first = frame(NARROW_FLAGS, 0x40_1000, 0x8000, Validity::All, FrameTrust::Context);
    let later = frame(NARROW_FLAGS, 0x40_1000, 0x8000, Validity::All, FrameTrust::CallFrameInfo);
    let same = frame(NARROW_FLAGS, 0x40_2008, 0x8000, Validity::All, FrameTrust::CallFrameInfo);
    let lower = frame(NARROW_FLAGS, 0x40_2008, 0x7ffc, Validity::All, FrameTrust::CallFrameInfo);
    assert!(validate(&first, same).is_some());
    assert!(validate(&later, same).is_none());
    assert!(validate(&first, lower).is_none());
    assert!(validate(&later, lower).is_none());
}

#[test]
fn validator_reports_call_site() {
    let callee = frame(NARROW_FLAGS, 0x40_1000, 0x8000, Validity::All, FrameTrust::Scan);
    let caller = frame(NARROW_FLAGS, 0x40_2008, 0x8010, Validity::All, FrameTrust::Scan);
    let f = validate(&callee, caller).unwrap();
    assert_eq!(f.instruction, 0x40_2000);
    assert_eq!(f.context.raw.regs[PC], 0x40_2008);
    let low = frame(NARROW_FLAGS, 0xfff, 0x8010, Validity::All, FrameTrust::Scan);
    assert!(validate(&callee, low).is_none());
    let edge = frame(NARROW_FLAGS, 0x1000, 0x8010, Validity::All, FrameTrust::Scan);
    assert_eq!(validate(&callee, edge).unwrap().instruction, 0xff8);
}

#[test]
fn end_to_end_scan_after_cfi_failure() {
    let s: u64 = 0x8000;
    let a: u32 = 0x40_2468;
    let callee = frame(NARROW_FLAGS, 0x40_1000, s, Validity::All, FrameTrust::Context);
    let stack = stack32(s, &[0, 0, 0, 0, a, 0x40_3000]);
    let modules = code_modules();
    let w = match get_caller_frame(&callee, None, Some(&stack), &modules) {
        Action::EvaluateCfi(w) => w,
        other => panic!("expected a cfi request, got {:?}", other),
    };
    assert_eq!(w.module, 0);
    let p = match resume_after_cfi(&callee, &stack, None) {
        Action::CheckInstruction(p) => p,
        other => panic!("expected a probe, got {:?}", other),
    };
    assert_eq!(p.address, s + 16);
    assert_eq!(p.candidate, a as u64);
    match resume_after_check(&callee, &stack, &p, true) {
        Action::Finish(Some(f)) => {
            assert_eq!(f.trust, FrameTrust::Scan);
            assert_eq!(f.instruction, a as u64 - 8);
            assert_eq!(f.context.raw.regs[SP], s + 16 + 4);
        }
        other => panic!("expected a caller, got {:?}", other),
    }
}

#[test]
fn rejected_candidate_moves_scan_on() {
    let callee = frame(NARROW_FLAGS, 0x40_1000, 0x8000, Validity::All, FrameTrust::Context);
    let stack = stack32(0x8000, &[0x5000, 0x40_2468]);
    let p = match get_caller_frame(&callee, None, Some(&stack), &ModuleList { modules: vec![] }) {
        Action::CheckInstruction(p) => p,
        other => panic!("expected a probe, got {:?}", other),
    };
    assert_eq!(p.candidate, 0x5000);
    let q = match resume_after_check(&callee, &stack, &p, false) {
        Action::CheckInstruction(q) => q,
        other => panic!("expected a probe, got {:?}", other),
    };
    assert_eq!(q.candidate, 0x40_2468);
    assert_eq!(q.index, 1);
    assert!(matches!(resume_after_check(&callee, &stack, &q, false), Action::Finish(None)));
}

#[test]
fn zero_caller_pc_ends_walk_from_either_strategy() {
    let callee = frame(NARROW_FLAGS, 0x40_1000, 0x8000, Validity::All, FrameTrust::Context);
    let stack = stack32(0x8000, &[0x40_2468]);
    let mut w = get_caller_by_cfi(&callee, None, &code_modules()).unwrap();
    w.caller_ctx.regs[PC] = 0;
    w.caller_ctx.regs[SP] = 0x9000;
    assert!(matches!(resume_after_cfi(&callee, &stack, Some(w)), Action::Finish(None)));
    let scanned = frame(NARROW_FLAGS, 0, 0x9000, Validity::All, FrameTrust::Scan);
    assert!(validate(&callee, scanned).is_none());
}

#[test]
fn repeating_a_step_gives_the_same_action() {
    let callee = frame(NARROW_FLAGS, 0x40_1000, 0x8000, Validity::All, FrameTrust::CallFrameInfo);
    let stack = stack32(0x8000, &[0, 0, 0, 0, 0x40_2468]);
    let modules = code_modules();
    let a = format!("{:?}", get_caller_frame(&callee, None, Some(&stack), &modules));
    let b = format!("{:?}", get_caller_frame(&callee, None, Some(&stack), &modules));
    assert_eq!(a, b);
    let c = format!("{:?}", resume_after_cfi(&callee, &stack, None));
    let d = format!("{:?}", resume_after_cfi(&callee, &stack, None));
    assert_eq!(c, d);
}

#[test]
fn wide_scan_stops_where_addresses_overflow() {
    let sp = u64::MAX - 7;
    let callee = frame(WIDE_FLAGS, 0x10, sp, Validity::All, FrameTrust::Context);
    let stack = stack64(sp, &[0]);
    let plan = scan_plan(&callee).unwrap();
    assert_eq!(next_probe(&stack, plan, 0), None);
    let stack = stack64(sp, &[0x40_2000]);
    let p = next_probe(&stack, plan, 0).unwrap();
    assert_eq!(p.address, sp);
    assert!(scan_frame(&callee, &p).is_none());
    assert!(matches!(resume_after_check(&callee, &stack, &p, true), Action::Finish(None)));
}
