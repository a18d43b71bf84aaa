use vstd::prelude::*;

verus! {

broadcast use vstd::array::group_array_axioms;

/// Number of registers in the model: the 32 integer registers and the program counter.
pub const NUM_REGS: usize = 33;

pub const S0: usize = 16;
pub const S1: usize = 17;
pub const S2: usize = 18;
pub const S3: usize = 19;
pub const S4: usize = 20;
pub const S5: usize = 21;
pub const S6: usize = 22;
pub const S7: usize = 23;
pub const GP: usize = 28;
/// The stack pointer register.
pub const SP: usize = 29;
pub const FP: usize = 30;
pub const RA: usize = 31;
/// The program counter (the exception program counter of the snapshot).
pub const PC: usize = 32;

/// Context-flags bit that marks a snapshot holding the 64-bit register variant.
pub const CONTEXT_MIPS64: u32 = 0x0008_0000;

/// Register width of a snapshot, fixed when the snapshot is read.
#[derive(Clone, Copy, Debug, PartialEq, Eq, Structural)]
pub enum Width {
    Narrow,
    Wide,
}

/// Raw MIPS register state: the context flags and every register as stored.
#[derive(Clone, Copy, Debug)]
pub struct MipsContext {
    pub context_flags: u32,
    pub regs: [u64; 33],
}

/// Which registers of a context hold meaningful values.
#[derive(Clone, Copy, Debug)]
pub enum Validity {
    All,
    Only([bool; 33]),
}

pub open spec fn is_register(r: int) -> bool {
    0 <= r < NUM_REGS
}

/// The callee-saved registers that are forwarded to the caller by default.
pub open spec fn is_callee_saved(r: int) -> bool {
    (S0 <= r <= S7) || r == GP || r == FP
}

pub open spec fn width_of_flags(flags: u32) -> Width {
    if flags & CONTEXT_MIPS64 != 0 {
        Width::Wide
    } else {
        Width::Narrow
    }
}

pub open spec fn pointer_width(w: Width) -> int {
    match w {
        Width::Narrow => 4,
        Width::Wide => 8,
    }
}

/// Largest address representable at the given width.
pub open spec fn address_limit(w: Width) -> int {
    match w {
        Width::Narrow => u32::MAX as int,
        Width::Wide => u64::MAX as int,
    }
}

/// A register value as seen through a view of the given width.
pub open spec fn truncate(w: Width, v: u64) -> u64 {
    match w {
        Width::Narrow => (v as u32) as u64,
        Width::Wide => v,
    }
}

/// Whether the validity mask knows register `r`.
pub open spec fn knows(v: Validity, r: int) -> bool {
    match v {
        Validity::All => true,
        Validity::Only(m) => m@[r],
    }
}

impl MipsContext {
    /// A context with every register zero and the given flags.
    pub fn new(context_flags: u32) -> (r: MipsContext)
        ensures
            r.context_flags == context_flags,
            forall|i: int| is_register(i) ==> r.regs@[i] == 0,
    {
        MipsContext { context_flags, regs: [0u64; 33] }
    }

    pub open spec fn width_spec(&self) -> Width {
        width_of_flags(self.context_flags)
    }

    /// The register width that the context flags select.
    pub fn width(&self) -> (r: Width)
        ensures
            r == self.width_spec(),
    {
        if self.context_flags & CONTEXT_MIPS64 != 0 {
            Width::Wide
        } else {
            Width::Narrow
        }
    }

    /// The stored value of register `r`, unconditionally, at the context's width.
    pub fn get_register_always(&self, r: usize) -> (v: u64)
        requires
            is_register(r as int),
        ensures
            v == truncate(self.width_spec(), self.regs@[r as int]),
    {
        let v = self.regs[r];
        match self.width() {
            Width::Narrow => (v as u32) as u64,
            Width::Wide => v,
        }
    }

    /// The value of register `r` at the context's width, if `valid` knows it.
    pub fn get_register(&self, r: usize, valid: &Validity) -> (v: Option<u64>)
        requires
            is_register(r as int),
        ensures
            v == (if knows(*valid, r as int) {
                Some(truncate(self.width_spec(), self.regs@[r as int]))
            } else {
                None::<u64>
            }),
    {
        let known = match valid {
            Validity::All => true,
            Validity::Only(m) => m[r],
        };
        if known {
            Some(self.get_register_always(r))
        } else {
            None
        }
    }

    /// Stores `v` in register `r`, truncated to the context's width.
    pub fn set_register(&mut self, r: usize, v: u64)
        requires
            is_register(r as int),
        ensures
            final(self).context_flags == old(self).context_flags,
            final(self).regs@ == old(self).regs@.update(
                r as int,
                truncate(old(self).width_spec(), v),
            ),
    {
        let t = match self.width() {
            Width::Narrow => (v as u32) as u64,
            Width::Wide => v,
        };
        self.regs[r] = t;
    }
}

/// Whether `a` marks exactly the callee-saved registers that `v` knows.
pub open spec fn is_forwarded_set(a: [bool; 33], v: Validity) -> bool {
    forall|i: int| 0 <= i < 33 ==> a@[i] == (is_callee_saved(i) && knows(v, i))
}

/// The registers a caller inherits by default from a callee with validity `v`.
pub open spec fn forwarded_spec(v: Validity) -> [bool; 33] {
    choose|a: [bool; 33]| is_forwarded_set(a, v)
}

/// The registers that a caller inherits unchanged unless call-frame info says
/// otherwise: the callee-saved registers that `valid` knows. The program
/// counter and stack pointer are never among them.
pub fn callee_forwarded_regs(valid: &Validity) -> (r: [bool; 33])
    ensures
        is_forwarded_set(r, *valid),
        r == forwarded_spec(*valid),
{
    let mut r = [false; 33];
    let mut i: usize = 0;
    while i < 33
        invariant
            0 <= i <= 33,
            forall|j: int| 0 <= j < i ==> r@[j] == (is_callee_saved(j) && knows(*valid, j)),
        decreases 33 - i,
    {
        let saved = (S0 <= i && i <= S7) || i == GP || i == FP;
        let known = match valid {
            Validity::All => true,
            Validity::Only(m) => m[i],
        };
        r[i] = saved && known;
        i = i + 1;
    }
    proof {
        assert(is_forwarded_set(r, *valid));
        let a = forwarded_spec(*valid);
        assert(is_forwarded_set(a, *valid));
        assert(r@.len() == 33 && a@.len() == 33);
        assert forall|j: int| 0 <= j < 33 implies r@[j] == a@[j] by {
            assert(r@[j] == (is_callee_saved(j) && knows(*valid, j)));
            assert(a@[j] == (is_callee_saved(j) && knows(*valid, j)));
        }
        assert(r@ =~= a@);
    }
    r
}

} // verus!
