use vstd::prelude::*;

verus! {

/// A bounds-checked image of the thread's stack: `bytes[0]` lives at
/// `base_address`; multi-byte values are stored in the snapshot's byte order.
#[derive(Clone, Debug)]
pub struct StackMemory {
    pub base_address: u64,
    pub bytes: Vec<u8>,
    pub big_endian: bool,
}

/// One loaded code module, covering `[base_address, base_address + size)`.
#[derive(Clone, Copy, Debug, PartialEq, Eq, Structural)]
pub struct Module {
    pub base_address: u64,
    pub size: u64,
}

/// The loaded code modules, in the order they were listed.
#[derive(Clone, Debug)]
pub struct ModuleList {
    pub modules: Vec<Module>,
}

pub open spec fn pow256(k: nat) -> nat
    decreases k,
{
    if k == 0 {
        1
    } else {
        256 * pow256((k - 1) as nat)
    }
}

/// The unsigned integer that `s` encodes in little-endian byte order.
pub open spec fn le_value(s: Seq<u8>) -> nat
    decreases s.len(),
{
    if s.len() == 0 {
        0
    } else {
        s[0] as nat + 256 * le_value(s.drop_first())
    }
}

/// The unsigned integer that `s` encodes in big-endian byte order.
pub open spec fn be_value(s: Seq<u8>) -> nat
    decreases s.len(),
{
    if s.len() == 0 {
        0
    } else {
        256 * be_value(s.drop_last()) + s.last() as nat
    }
}

/// The `n`-byte value stored at absolute address `addr` in the image's byte
/// order, or `None` where any of its bytes lies outside the image.
pub open spec fn read_spec(m: StackMemory, addr: int, n: int) -> Option<nat> {
    let off = addr - m.base_address;
    if 0 <= off && off + n <= m.bytes@.len() {
        let s = m.bytes@.subrange(off, off + n);
        Some(if m.big_endian { be_value(s) } else { le_value(s) })
    } else {
        None
    }
}

pub open spec fn contains(m: Module, addr: int) -> bool {
    m.base_address <= addr < m.base_address + m.size
}

/// The first listed module whose range holds `addr`.
pub open spec fn module_at_spec(l: ModuleList, addr: int) -> Option<usize> {
    if exists|i: int| 0 <= i < l.modules@.len() && contains(l.modules@[i], addr) {
        let i = choose|i: int|
            0 <= i < l.modules@.len() && contains(l.modules@[i], addr) && forall|j: int|
                0 <= j < i ==> !contains(#[trigger] l.modules@[j], addr);
        Some(i as usize)
    } else {
        None
    }
}

proof fn lemma_pow256_mono(a: nat, b: nat)
    requires
        a <= b,
    ensures
        pow256(a) <= pow256(b),
    decreases b,
{
    if a < b {
        lemma_pow256_mono(a, (b - 1) as nat);
    }
}

proof fn lemma_le_step(s: Seq<u8>, a: int, b: int)
    requires
        0 < a <= b <= s.len(),
    ensures
        le_value(s.subrange(a - 1, b)) == s[a - 1] as nat + 256 * le_value(s.subrange(a, b)),
{
    assert(s.subrange(a - 1, b).drop_first() =~= s.subrange(a, b));
}

proof fn lemma_le_value_bound(s: Seq<u8>)
    ensures
        le_value(s) < pow256(s.len()),
    decreases s.len(),
{
    if s.len() > 0 {
        let t = s.drop_first();
        lemma_le_value_bound(t);
        let x = le_value(t);
        let b = s[0] as nat;
        let q = pow256(t.len());
        assert(b + 256 * x < 256 * q) by (nonlinear_arith)
            requires
                x < q,
                b < 256,
        ;
    }
}

proof fn lemma_be_value_bound(s: Seq<u8>)
    ensures
        be_value(s) < pow256(s.len()),
    decreases s.len(),
{
    if s.len() > 0 {
        let t = s.drop_last();
        lemma_be_value_bound(t);
        let x = be_value(t);
        let b = s.last() as nat;
        let q = pow256(t.len());
        assert(256 * x + b < 256 * q) by (nonlinear_arith)
            requires
                x < q,
                b < 256,
        ;
    }
}

proof fn lemma_be_step(s: Seq<u8>, a: int, b: int)
    requires
        0 <= a < b <= s.len(),
    ensures
        be_value(s.subrange(a, b)) == 256 * be_value(s.subrange(a, b - 1)) + s[b - 1] as nat,
{
    assert(s.subrange(a, b).drop_last() =~= s.subrange(a, b - 1));
}

/// A value read from the image fits its width, so one of at most eight
/// bytes fits in a `u64`.
pub proof fn lemma_read_fits(m: StackMemory, addr: int, n: int)
    requires
        0 <= n <= 8,
    ensures
        read_spec(m, addr, n) matches Some(v) ==> v < pow256(n as nat) && v <= u64::MAX,
{
    let off = addr - m.base_address;
    if 0 <= off && off + n <= m.bytes@.len() {
        lemma_le_value_bound(m.bytes@.subrange(off, off + n));
        lemma_be_value_bound(m.bytes@.subrange(off, off + n));
        lemma_pow256_mono(n as nat, 8);
        assert(pow256(8) == 0x1_0000_0000_0000_0000) by {
            reveal_with_fuel(pow256, 9);
        }
    }
}

impl StackMemory {
    /// Reads the `n`-byte value at absolute address `addr` in the image's
    /// byte order; `None` where the range leaves the image.
    pub fn read(&self, addr: u64, n: usize) -> (r: Option<u64>)
        requires
            n <= 8,
        ensures
            match r {
                Some(x) => read_spec(*self, addr as int, n as int) == Some(x as nat),
                None => read_spec(*self, addr as int, n as int) is None,
            },
    {
        if addr < self.base_address {
            return None;
        }
        let off = addr - self.base_address;
        let len = self.bytes.len();
        if off > len as u64 || (len as u64 - off) < n as u64 {
            return None;
        }
        let off = off as usize;
        if self.big_endian {
            Some(self.read_be_at(off, n))
        } else {
            Some(self.read_le_at(off, n))
        }
    }

    fn read_be_at(&self, off: usize, n: usize) -> (v: u64)
        requires
            n <= 8,
            off + n <= self.bytes@.len(),
        ensures
            v as nat == be_value(self.bytes@.subrange(off as int, off + n)),
    {
        let len = self.bytes.len();
        let ghost s = self.bytes@;
        let mut v: u64 = 0;
        let mut k: usize = 0;
        proof {
            assert(s.subrange(off as int, off as int).len() == 0);
        }
        while k < n
            invariant
                n <= 8,
                k <= n,
                off + n <= s.len(),
                s == self.bytes@,
                len == s.len(),
                v as nat == be_value(s.subrange(off as int, off + k)),
                v < pow256(k as nat),
            decreases n - k,
        {
            proof {
                lemma_be_step(s, off as int, off + k + 1);
                lemma_pow256_mono(k as nat, 7);
                assert(pow256(7) == 72057594037927936) by {
                    reveal_with_fuel(pow256, 8);
                }
            }
            let b = self.bytes[off + k];
            assert(v * 256 + b < pow256((k + 1) as nat)) by (nonlinear_arith)
                requires
                    v < pow256(k as nat),
                    b < 256,
                    pow256((k + 1) as nat) == 256 * pow256(k as nat),
            ;
            v = v * 256 + b as u64;
            k = k + 1;
        }
        v
    }

    fn read_le_at(&self, off: usize, n: usize) -> (v: u64)
        requires
            n <= 8,
            off + n <= self.bytes@.len(),
        ensures
            v as nat == le_value(self.bytes@.subrange(off as int, off + n)),
    {
        let len = self.bytes.len();
        let ghost s = self.bytes@;
        let mut v: u64 = 0;
        let mut k: usize = n;
        proof {
            assert(s.subrange(off + n, off + n).len() == 0);
        }
        while k > 0
            invariant
                n <= 8,
                k <= n,
                off + n <= s.len(),
                s == self.bytes@,
                len == s.len(),
                v as nat == le_value(s.subrange(off + k, off + n as int)),
                v < pow256((n - k) as nat),
            decreases k,
        {
            proof {
                lemma_le_step(s, off + k, off + n as int);
                lemma_pow256_mono((n - k) as nat, 7);
                assert(pow256(7) == 72057594037927936) by {
                    reveal_with_fuel(pow256, 8);
                }
            }
            k = k - 1;
            let b = self.bytes[off + k];
            assert(v * 256 + b < pow256((n - k) as nat)) by (nonlinear_arith)
                requires
                    v < pow256((n - k - 1) as nat),
                    b < 256,
                    pow256((n - k) as nat) == 256 * pow256((n - k - 1) as nat),
            ;
            v = v * 256 + b as u64;
        }
        v
    }
}

impl ModuleList {
    /// The first listed module whose range holds `addr`.
    pub fn module_at_address(&self, addr: u64) -> (r: Option<usize>)
        ensures
            r == module_at_spec(*self, addr as int),
            match r {
                Some(i) => i < self.modules@.len() && contains(self.modules@[i as int], addr as int),
                None => forall|j: int|
                    0 <= j < self.modules@.len() ==> !contains(#[trigger] self.modules@[j], addr as int),
            },
    {
        let mut i: usize = 0;
        while i < self.modules.len()
            invariant
                i <= self.modules@.len(),
                forall|j: int| 0 <= j < i ==> !contains(#[trigger] self.modules@[j], addr as int),
            decreases self.modules@.len() - i,
        {
            let m = self.modules[i];
            if addr >= m.base_address && addr - m.base_address < m.size {
                proof {
                    let c = choose|c: int|
                        0 <= c < self.modules@.len() && contains(self.modules@[c], addr as int)
                            && forall|j: int|
                            0 <= j < c ==> !contains(#[trigger] self.modules@[j], addr as int);
                    assert(0 <= c < self.modules@.len() && contains(self.modules@[c], addr as int)
                        && forall|j: int|
                        0 <= j < c ==> !contains(#[trigger] self.modules@[j], addr as int)) by {
                        assert(contains(self.modules@[i as int], addr as int));
                    }
                    if c < i {
                        assert(!contains(self.modules@[c], addr as int));
                    } else if c > i {
                        assert(!contains(self.modules@[i as int], addr as int));
                    }
                }
                return Some(i);
            }
            i = i + 1;
        }
        None
    }
}

} // verus!
