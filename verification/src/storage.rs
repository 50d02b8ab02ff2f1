use crate::assembler::Parameter;
use crate::flags::{spec_truth, truth};
use crate::isa::Opcode;
use crate::machine::{Emulator, Flow, Machine, CONDITION_FLAG, MEMORY_WORDS};
use vstd::prelude::*;

verus! {

/// The instructions that work on the disc.
pub open spec fn spec_is_disc_form(op: Opcode) -> bool {
    matches!(
        op,
        Opcode::Write | Opcode::Load | Opcode::WritePtr | Opcode::LoadPtr | Opcode::WriteSeg
            | Opcode::LoadSeg
    )
}

/// The instructions that work on the ports.
pub open spec fn spec_is_port_form(op: Opcode) -> bool {
    matches!(op, Opcode::ReadIn | Opcode::ReadInFlag | Opcode::WriteOut | Opcode::WriteOutFlag)
}

/// The disc address that two words make: the first is its low half.
pub open spec fn spec_disc_address(low: u16, high: u16) -> u32 {
    (low + 0x1_0000 * high) as u32
}

/// The disc address that two words make.
#[verifier::when_used_as_spec(spec_disc_address)]
pub fn disc_address(low: u16, high: u16) -> (r: u32)
    ensures
        r == spec_disc_address(low, high),
{
    low as u32 + 0x1_0000 * (high as u32)
}

impl Machine {
    /// The state with `len` words of RAM from the absolute address `start` on written to
    /// the disc from `addr` on, each with the tag of its source line. Addresses wrap around
    /// at the end of RAM and of the disc.
    pub open spec fn write_segment(self, addr: u32, start: u16, len: u16) -> Machine {
        Machine {
            disc: Map::new(
                |k: u32| self.disc.contains_key(k) || k.wrapping_sub(addr) < len,
                |k: u32|
                    if k.wrapping_sub(addr) < len {
                        self.ram_word(start.wrapping_add(k.wrapping_sub(addr) as u16))
                    } else {
                        self.disc[k]
                    },
            ),
            trace_disc: Map::new(
                |k: u32| self.trace_disc.contains_key(k) || k.wrapping_sub(addr) < len,
                |k: u32|
                    if k.wrapping_sub(addr) < len {
                        self.ram_line(start.wrapping_add(k.wrapping_sub(addr) as u16))
                    } else {
                        self.trace_disc[k]
                    },
            ),
            ..self
        }
    }

    /// The state with `len` words of the disc from `addr` on read into RAM from the
    /// absolute address `start` on, each with the tag of its source line.
    pub open spec fn load_segment(self, addr: u32, start: u16, len: u16) -> Machine {
        Machine {
            ram: Seq::new(
                MEMORY_WORDS as nat,
                |i: int|
                    if (i as u16).wrapping_sub(start) < len {
                        self.disc_word(addr.wrapping_add((i as u16).wrapping_sub(start) as u32))
                    } else {
                        self.ram[i]
                    },
            ),
            trace_ram: Seq::new(
                MEMORY_WORDS as nat,
                |i: int|
                    if (i as u16).wrapping_sub(start) < len {
                        self.disc_line(addr.wrapping_add((i as u16).wrapping_sub(start) as u32))
                    } else {
                        self.trace_ram[i]
                    },
            ),
            ..self
        }
    }

    /// An instruction that works on the disc. All of them fault when unprivileged.
    ///
    /// `Write a r` writes register `r` to the disc at the constant address `a`, and
    /// `Load a r` reads it from there. `WritePtr l h r` and `LoadPtr l h r` take the low and
    /// the high half of the address from registers. `WriteSeg l h s n` copies the `n` words
    /// of RAM at `s` to the disc, and `LoadSeg l h s n` copies them from the disc, all four
    /// taken from registers; the words keep the tags of their source lines.
    pub open spec fn disc_form(self, op: Opcode, ops: Seq<Parameter>) -> (Machine, Flow) {
        if !self.privileged() {
            self.fault()
        } else {
            let at = spec_disc_address(self.reg(ops[0].spec_byte()), self.reg(ops[1].spec_byte()));
            let state = match op {
                Opcode::Write => self.set_disc_word(
                    ops[0].spec_long(),
                    self.reg(ops[1].spec_byte()),
                ),
                Opcode::Load => self.set_reg(
                    ops[1].spec_byte(),
                    self.disc_word(ops[0].spec_long()),
                ),
                Opcode::WritePtr => self.set_disc_word(at, self.reg(ops[2].spec_byte())),
                Opcode::LoadPtr => self.set_reg(ops[2].spec_byte(), self.disc_word(at)),
                Opcode::WriteSeg => self.write_segment(
                    at,
                    self.reg(ops[2].spec_byte()),
                    self.reg(ops[3].spec_byte()),
                ),
                Opcode::LoadSeg => self.load_segment(
                    at,
                    self.reg(ops[2].spec_byte()),
                    self.reg(ops[3].spec_byte()),
                ),
                _ => self,
            };
            (state, Flow::Next)
        }
    }

    /// An instruction that works on the ports. All of them fault when unprivileged.
    ///
    /// `ReadIn r p` reads the value of input port `p` into register `r`, and `ReadInFlag p`
    /// its flag into the condition flag. `WriteOut r p` writes register `r` to the value of
    /// output port `p`, and `WriteOutFlag r p` sets the port's flag if the register is not
    /// zero and clears it otherwise.
    pub open spec fn port_form(self, op: Opcode, ops: Seq<Parameter>) -> (Machine, Flow) {
        if !self.privileged() {
            self.fault()
        } else {
            let state = match op {
                Opcode::ReadIn => self.set_reg(
                    ops[0].spec_byte(),
                    self.io_in_ports[ops[1].spec_byte() as int].0,
                ),
                Opcode::ReadInFlag => self.set_reg(
                    CONDITION_FLAG,
                    spec_truth(self.io_in_ports[ops[0].spec_byte() as int].1),
                ),
                Opcode::WriteOut => self.set_out_port(
                    ops[1].spec_byte(),
                    self.reg(ops[0].spec_byte()),
                    self.io_out_ports[ops[1].spec_byte() as int].1,
                ),
                Opcode::WriteOutFlag => self.set_out_port(
                    ops[1].spec_byte(),
                    self.io_out_ports[ops[1].spec_byte() as int].0,
                    self.reg(ops[0].spec_byte()) > 0,
                ),
                _ => self,
            };
            (state, Flow::Next)
        }
    }
}

impl Emulator {
    /// Copies words of RAM to the disc.
    pub fn write_segment(&mut self, addr: u32, start: u16, len: u16)
        requires
            old(self).wf(),
        ensures
            final(self)@ == old(self)@.write_segment(addr, start, len),
            final(self).wf(),
    {
        let ghost before = self@;
        let mut k: u16 = 0;
        assert(before.disc =~= Map::new(
            |j: u32| before.disc.contains_key(j) || j.wrapping_sub(addr) < 0,
            |j: u32|
                if j.wrapping_sub(addr) < 0 {
                    before.ram_word(start.wrapping_add(j.wrapping_sub(addr) as u16))
                } else {
                    before.disc[j]
                },
        ));
        assert(before.trace_disc =~= Map::new(
            |j: u32| before.trace_disc.contains_key(j) || j.wrapping_sub(addr) < 0,
            |j: u32|
                if j.wrapping_sub(addr) < 0 {
                    before.ram_line(start.wrapping_add(j.wrapping_sub(addr) as u16))
                } else {
                    before.trace_disc[j]
                },
        ));
        while k < len
            invariant
                k <= len,
                self.wf(),
                before.wf(),
                self@ == (Machine {
                    disc: Map::new(
                        |j: u32| before.disc.contains_key(j) || j.wrapping_sub(addr) < k,
                        |j: u32|
                            if j.wrapping_sub(addr) < k {
                                before.ram_word(start.wrapping_add(j.wrapping_sub(addr) as u16))
                            } else {
                                before.disc[j]
                            },
                    ),
                    trace_disc: Map::new(
                        |j: u32| before.trace_disc.contains_key(j) || j.wrapping_sub(addr) < k,
                        |j: u32|
                            if j.wrapping_sub(addr) < k {
                                before.ram_line(start.wrapping_add(j.wrapping_sub(addr) as u16))
                            } else {
                                before.trace_disc[j]
                            },
                    ),
                    ..before
                }),
            decreases len - k,
        {
            let v = self.ram_word(start.wrapping_add(k));
            let line = self.ram_line(start.wrapping_add(k));
            self.set_disc_word(addr.wrapping_add(k as u32), v);
            self.set_disc_line(addr.wrapping_add(k as u32), line);
            proof {
                let next = Map::new(
                    |j: u32| before.disc.contains_key(j) || j.wrapping_sub(addr) < k + 1,
                    |j: u32|
                        if j.wrapping_sub(addr) < k + 1 {
                            before.ram_word(start.wrapping_add(j.wrapping_sub(addr) as u16))
                        } else {
                            before.disc[j]
                        },
                );
                let next_lines = Map::new(
                    |j: u32| before.trace_disc.contains_key(j) || j.wrapping_sub(addr) < k + 1,
                    |j: u32|
                        if j.wrapping_sub(addr) < k + 1 {
                            before.ram_line(start.wrapping_add(j.wrapping_sub(addr) as u16))
                        } else {
                            before.trace_disc[j]
                        },
                );
                assert(self@.disc =~= next);
                assert(self@.trace_disc =~= next_lines);
            }
            k += 1;
        }
    }

    /// Copies words of the disc into RAM.
    pub fn load_segment(&mut self, addr: u32, start: u16, len: u16)
        requires
            old(self).wf(),
        ensures
            final(self)@ == old(self)@.load_segment(addr, start, len),
            final(self).wf(),
    {
        let ghost before = self@;
        let mut k: u16 = 0;
        assert(before.ram =~= Seq::new(
            MEMORY_WORDS as nat,
            |i: int|
                if (i as u16).wrapping_sub(start) < 0 {
                    before.disc_word(addr.wrapping_add((i as u16).wrapping_sub(start) as u32))
                } else {
                    before.ram[i]
                },
        ));
        assert(before.trace_ram =~= Seq::new(
            MEMORY_WORDS as nat,
            |i: int|
                if (i as u16).wrapping_sub(start) < 0 {
                    before.disc_line(addr.wrapping_add((i as u16).wrapping_sub(start) as u32))
                } else {
                    before.trace_ram[i]
                },
        ));
        while k < len
            invariant
                k <= len,
                self.wf(),
                before.wf(),
                self@ == (Machine {
                    ram: Seq::new(
                        MEMORY_WORDS as nat,
                        |i: int|
                            if (i as u16).wrapping_sub(start) < k {
                                before.disc_word(
                                    addr.wrapping_add((i as u16).wrapping_sub(start) as u32),
                                )
                            } else {
                                before.ram[i]
                            },
                    ),
                    trace_ram: Seq::new(
                        MEMORY_WORDS as nat,
                        |i: int|
                            if (i as u16).wrapping_sub(start) < k {
                                before.disc_line(
                                    addr.wrapping_add((i as u16).wrapping_sub(start) as u32),
                                )
                            } else {
                                before.trace_ram[i]
                            },
                    ),
                    ..before
                }),
            decreases len - k,
        {
            let v = self.disc_word(addr.wrapping_add(k as u32));
            let line = self.disc_line(addr.wrapping_add(k as u32));
            self.set_ram_word(start.wrapping_add(k), v);
            self.set_ram_line(start.wrapping_add(k), line);
            proof {
                let next = Seq::new(
                    MEMORY_WORDS as nat,
                    |i: int|
                        if (i as u16).wrapping_sub(start) < k + 1 {
                            before.disc_word(
                                addr.wrapping_add((i as u16).wrapping_sub(start) as u32),
                            )
                        } else {
                            before.ram[i]
                        },
                );
                let next_lines = Seq::new(
                    MEMORY_WORDS as nat,
                    |i: int|
                        if (i as u16).wrapping_sub(start) < k + 1 {
                            before.disc_line(
                                addr.wrapping_add((i as u16).wrapping_sub(start) as u32),
                            )
                        } else {
                            before.trace_ram[i]
                        },
                );
                assert(self@.ram =~= next);
                assert(self@.trace_ram =~= next_lines);
            }
            k += 1;
        }
    }

    /// Executes an instruction that works on the disc.
    pub fn disc_form(&mut self, op: Opcode, ops: &Vec<Parameter>) -> (flow: Flow)
        requires
            old(self).wf(),
            spec_is_disc_form(op),
            ops@.len() == op.spec_params().len(),
        ensures
            (final(self)@, flow) == old(self)@.disc_form(op, ops@),
            final(self).wf(),
    {
        if !self.privileged() {
            return self.fault();
        }
        match op {
            Opcode::Write => {
                let v = self.reg(ops[1].byte());
                self.set_disc_word(ops[0].long(), v);
            },
            Opcode::Load => {
                let v = self.disc_word(ops[0].long());
                self.set_reg(ops[1].byte(), v);
            },
            Opcode::WritePtr => {
                let at = disc_address(self.reg(ops[0].byte()), self.reg(ops[1].byte()));
                let v = self.reg(ops[2].byte());
                self.set_disc_word(at, v);
            },
            Opcode::LoadPtr => {
                let at = disc_address(self.reg(ops[0].byte()), self.reg(ops[1].byte()));
                let v = self.disc_word(at);
                self.set_reg(ops[2].byte(), v);
            },
            Opcode::WriteSeg => {
                let at = disc_address(self.reg(ops[0].byte()), self.reg(ops[1].byte()));
                let start = self.reg(ops[2].byte());
                let len = self.reg(ops[3].byte());
                self.write_segment(at, start, len);
            },
            Opcode::LoadSeg => {
                let at = disc_address(self.reg(ops[0].byte()), self.reg(ops[1].byte()));
                let start = self.reg(ops[2].byte());
                let len = self.reg(ops[3].byte());
                self.load_segment(at, start, len);
            },
            _ => {},
        }
        Flow::Next
    }

    /// Executes an instruction that works on the ports.
    pub fn port_form(&mut self, op: Opcode, ops: &Vec<Parameter>) -> (flow: Flow)
        requires
            old(self).wf(),
            spec_is_port_form(op),
            ops@.len() == op.spec_params().len(),
        ensures
            (final(self)@, flow) == old(self)@.port_form(op, ops@),
            final(self).wf(),
    {
        if !self.privileged() {
            return self.fault();
        }
        match op {
            Opcode::ReadIn => {
                let port = self.in_port(ops[1].byte());
                self.set_reg(ops[0].byte(), port.0);
            },
            Opcode::ReadInFlag => {
                let port = self.in_port(ops[0].byte());
                self.set_reg(CONDITION_FLAG, truth(port.1));
            },
            Opcode::WriteOut => {
                let port = self.out_port(ops[1].byte());
                let v = self.reg(ops[0].byte());
                self.set_out_port(ops[1].byte(), v, port.1);
            },
            Opcode::WriteOutFlag => {
                let port = self.out_port(ops[1].byte());
                let v = self.reg(ops[0].byte());
                self.set_out_port(ops[1].byte(), port.0, v > 0);
            },
            _ => {},
        }
        Flow::Next
    }
}

} // verus!
