use crate::assembler::Parameter;
use crate::flags::{spec_truth, truth};
use crate::isa::Opcode;
use crate::machine::{Emulator, Flow, Machine, CONDITION_FLAG, MEMORY_WORDS};
use vstd::prelude::*;

verus! {

/// The instructions that work on a span of RAM.
pub open spec fn spec_is_block(op: Opcode) -> bool {
    matches!(
        op,
        Opcode::MemCpy | Opcode::MemCpyPtr | Opcode::MemCompare | Opcode::MemComparePtr
            | Opcode::MemFill
    )
}

impl Machine {
    /// The state with `len` words of RAM copied from `src` to `dst`, as the running program
    /// sees them. Every word that is copied is the word that was there before the copy.
    pub open spec fn copy_span(self, src: u16, dst: u16, len: u16) -> Machine {
        Machine {
            ram: Seq::new(
                MEMORY_WORDS as nat,
                |i: int|
                    if (i as u16).wrapping_sub(self.ram_address(dst)) < len {
                        self.load(src.wrapping_add((i as u16).wrapping_sub(self.ram_address(dst))))
                    } else {
                        self.ram[i]
                    },
            ),
            ..self
        }
    }

    /// Whether the `len` words of RAM from `a` on equal those from `b` on, as the running
    /// program sees them.
    pub open spec fn spans_equal(self, a: u16, b: u16, len: u16) -> bool {
        forall|k: u16| k < len ==> #[trigger] self.span_word(a, k) == self.span_word(b, k)
    }

    /// The word of RAM that the running program sees `k` words behind `start`.
    pub open spec fn span_word(self, start: u16, k: u16) -> u16 {
        self.load(start.wrapping_add(k))
    }

    /// The state with `len` words of RAM from `start` on set to `v`, as the running program
    /// sees them.
    pub open spec fn fill_span(self, start: u16, len: u16, v: u16) -> Machine {
        Machine {
            ram: Seq::new(
                MEMORY_WORDS as nat,
                |i: int|
                    if (i as u16).wrapping_sub(self.ram_address(start)) < len {
                        v
                    } else {
                        self.ram[i]
                    },
            ),
            ..self
        }
    }

    /// An instruction that works on a span of RAM. It faults, and does nothing else, where
    /// the running program may not touch a span that it names.
    ///
    /// `MemCpy s d n` copies `n` words from `s` to `d`, `MemCompare a b n` sets the
    /// condition flag to 1 if the `n` words at `a` equal those at `b` and to 0 if not; the
    /// addresses are constants and `n` is a constant of 8 bits. Their `Ptr` forms take all
    /// three from registers. `MemFill p n v` sets the `n` words from the address in
    /// register `p` on to `v`.
    pub open spec fn block(self, op: Opcode, ops: Seq<Parameter>) -> (Machine, Flow) {
        if op == Opcode::MemFill {
            let start = self.reg(ops[0].spec_byte());
            if self.ram_span_violation(start, ops[1].spec_word() as int) {
                self.fault()
            } else {
                (self.fill_span(start, ops[1].spec_word(), ops[2].spec_word()), Flow::Next)
            }
        } else {
            let by_pointer = op == Opcode::MemCpyPtr || op == Opcode::MemComparePtr;
            let a = if by_pointer {
                self.reg(ops[0].spec_byte())
            } else {
                ops[0].spec_word()
            };
            let b = if by_pointer {
                self.reg(ops[1].spec_byte())
            } else {
                ops[1].spec_word()
            };
            let n = if by_pointer {
                self.reg(ops[2].spec_byte())
            } else {
                ops[2].spec_byte() as u16
            };
            if self.ram_span_violation(a, n as int) || self.ram_span_violation(b, n as int) {
                self.fault()
            } else if op == Opcode::MemCpy || op == Opcode::MemCpyPtr {
                (self.copy_span(a, b, n), Flow::Next)
            } else {
                (self.set_reg(CONDITION_FLAG, spec_truth(self.spans_equal(a, b, n))), Flow::Next)
            }
        }
    }
}

impl Emulator {
    /// Copies `len` words of RAM from `src` to `dst`.
    pub fn copy_span(&mut self, src: u16, dst: u16, len: u16)
        requires
            old(self).wf(),
        ensures
            final(self)@ == old(self)@.copy_span(src, dst, len),
            final(self).wf(),
    {
        let ghost before = self@;
        let mut held: Vec<u16> = Vec::new();
        let mut k: u16 = 0;
        while k < len
            invariant
                k <= len,
                self.wf(),
                self@ == before,
                held@.len() == k,
                forall|j: int| 0 <= j < k ==> held@[j] == before.load(src.wrapping_add(j as u16)),
            decreases len - k,
        {
            held.push(self.load(src.wrapping_add(k)));
            k += 1;
        }
        let ghost origin = before.ram_address(dst);
        let mut k: u16 = 0;
        assert(before.ram =~= Seq::new(
            MEMORY_WORDS as nat,
            |i: int|
                if (i as u16).wrapping_sub(origin) < 0 {
                    held@[(i as u16).wrapping_sub(origin) as int]
                } else {
                    before.ram[i]
                },
        ));
        while k < len
            invariant
                k <= len,
                self.wf(),
                before.wf(),
                held@.len() == len,
                origin == before.ram_address(dst),
                self@ == (Machine {
                    ram: Seq::new(
                        MEMORY_WORDS as nat,
                        |i: int|
                            if (i as u16).wrapping_sub(origin) < k {
                                held@[(i as u16).wrapping_sub(origin) as int]
                            } else {
                                before.ram[i]
                            },
                    ),
                    ..before
                }),
            decreases len - k,
        {
            self.store(dst.wrapping_add(k), held[k as usize]);
            proof {
                let next = Seq::new(
                    MEMORY_WORDS as nat,
                    |i: int|
                        if (i as u16).wrapping_sub(origin) < k + 1 {
                            held@[(i as u16).wrapping_sub(origin) as int]
                        } else {
                            before.ram[i]
                        },
                );
                assert(self@.ram =~= next);
            }
            k += 1;
        }
        assert(self@.ram =~= before.copy_span(src, dst, len).ram);
    }

    /// Whether the `len` words of RAM from `a` on equal those from `b` on.
    pub fn spans_equal(&self, a: u16, b: u16, len: u16) -> (r: bool)
        requires
            self.wf(),
        ensures
            r == self@.spans_equal(a, b, len),
    {
        let mut k: u16 = 0;
        while k < len
            invariant
                k <= len,
                self.wf(),
                forall|j: u16| j < k ==> #[trigger] self@.span_word(a, j) == self@.span_word(b, j),
            decreases len - k,
        {
            if self.load(a.wrapping_add(k)) != self.load(b.wrapping_add(k)) {
                assert(self@.span_word(a, k) != self@.span_word(b, k));
                return false;
            }
            k += 1;
        }
        true
    }

    /// Sets `len` words of RAM from `start` on to `v`.
    pub fn fill_span(&mut self, start: u16, len: u16, v: u16)
        requires
            old(self).wf(),
        ensures
            final(self)@ == old(self)@.fill_span(start, len, v),
            final(self).wf(),
    {
        let ghost before = self@;
        let ghost origin = before.ram_address(start);
        let mut k: u16 = 0;
        assert(before.ram =~= Seq::new(
            MEMORY_WORDS as nat,
            |i: int|
                if (i as u16).wrapping_sub(origin) < 0 {
                    v
                } else {
                    before.ram[i]
                },
        ));
        while k < len
            invariant
                k <= len,
                self.wf(),
                before.wf(),
                origin == before.ram_address(start),
                self@ == (Machine {
                    ram: Seq::new(
                        MEMORY_WORDS as nat,
                        |i: int|
                            if (i as u16).wrapping_sub(origin) < k {
                                v
                            } else {
                                before.ram[i]
                            },
                    ),
                    ..before
                }),
            decreases len - k,
        {
            self.store(start.wrapping_add(k), v);
            proof {
                let next = Seq::new(
                    MEMORY_WORDS as nat,
                    |i: int|
                        if (i as u16).wrapping_sub(origin) < k + 1 {
                            v
                        } else {
                            before.ram[i]
                        },
                );
                assert(self@.ram =~= next);
            }
            k += 1;
        }
        assert(self@.ram =~= before.fill_span(start, len, v).ram);
    }

    /// Executes an instruction that works on a span of RAM.
    pub fn block(&mut self, op: Opcode, ops: &Vec<Parameter>) -> (flow: Flow)
        requires
            old(self).wf(),
            spec_is_block(op),
            ops@.len() == op.spec_params().len(),
        ensures
            (final(self)@, flow) == old(self)@.block(op, ops@),
            final(self).wf(),
    {
        if op == Opcode::MemFill {
            let start = self.reg(ops[0].byte());
            if self.ram_span_violation(start, ops[1].word()) {
                return self.fault();
            }
            self.fill_span(start, ops[1].word(), ops[2].word());
            return Flow::Next;
        }
        let by_pointer = op == Opcode::MemCpyPtr || op == Opcode::MemComparePtr;
        let a = if by_pointer {
            self.reg(ops[0].byte())
        } else {
            ops[0].word()
        };
        let b = if by_pointer {
            self.reg(ops[1].byte())
        } else {
            ops[1].word()
        };
        let n = if by_pointer {
            self.reg(ops[2].byte())
        } else {
            ops[2].byte() as u16
        };
        if self.ram_span_violation(a, n) || self.ram_span_violation(b, n) {
            self.fault()
        } else if op == Opcode::MemCpy || op == Opcode::MemCpyPtr {
            self.copy_span(a, b, n);
            Flow::Next
        } else {
            let same = self.spans_equal(a, b, n);
            self.set_reg(CONDITION_FLAG, truth(same));
            Flow::Next
        }
    }
}

} // verus!
