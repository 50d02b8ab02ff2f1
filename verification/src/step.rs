use crate::alu::spec_is_arithmetic;
use crate::assembler::Parameter;
use crate::blocks::spec_is_block;
use crate::control::spec_is_control;
use crate::decoder::{decode_operands, spec_decode_operands};
use crate::emitter::{lemma_operands_fit_slot, ImageWord};
use crate::flags::{spec_is_branch, spec_is_flag_form};
use crate::isa::Opcode;
use crate::machine::{
    spec_cycle_cost, Emulator, Flow, Halt, Machine, CYCLES, MEMORY_WORDS, PROGRAM_COUNTER,
    PROGRAM_SIZE, PROGRAM_START, PROTECTED, TIMEOUT_CALLBACK_ADDR, TIMEOUT_DURATION,
};
use crate::moves::spec_is_transfer;
use crate::stack::spec_is_stack_form;
use crate::storage::{spec_is_disc_form, spec_is_port_form};
use crate::video::spec_is_video;
use vstd::prelude::*;

verus! {

/// The families of instructions, each with rules of its own.
#[derive(Clone, Copy, Debug, PartialEq, Eq, Structural)]
pub enum Family {
    /// Moves of one word between registers, constants and RAM.
    Transfer,
    /// Work on spans of RAM.
    Block,
    /// Set-up of the machine, and entering and leaving programs.
    Control,
    /// Work on the frame buffers.
    Video,
    /// Arithmetic and logic.
    Arithmetic,
    /// Comparisons and the flags.
    Flags,
    /// Jumps.
    Branch,
    /// Work on the stack, calls and returns.
    Stack,
    /// Work on the disc.
    Disc,
    /// Work on the ports.
    Port,
}

impl Opcode {
    /// The family that an instruction belongs to.
    pub open spec fn spec_family(self) -> Family {
        if spec_is_transfer(self) {
            Family::Transfer
        } else if spec_is_block(self) {
            Family::Block
        } else if spec_is_control(self) {
            Family::Control
        } else if spec_is_video(self) {
            Family::Video
        } else if spec_is_arithmetic(self) {
            Family::Arithmetic
        } else if spec_is_flag_form(self) {
            Family::Flags
        } else if spec_is_branch(self) {
            Family::Branch
        } else if spec_is_stack_form(self) {
            Family::Stack
        } else if spec_is_disc_form(self) {
            Family::Disc
        } else {
            Family::Port
        }
    }

    /// The family that an instruction belongs to.
    #[verifier::when_used_as_spec(spec_family)]
    pub fn family(self) -> (f: Family)
        ensures
            f == self.spec_family(),
            f == Family::Port ==> spec_is_port_form(self),
    {
        match self {
            Opcode::Nop | Opcode::Ldi | Opcode::Mov | Opcode::Swp | Opcode::LdiR | Opcode::Sto
            | Opcode::Get | Opcode::LdiPtr | Opcode::StoPtr | Opcode::GetPtr | Opcode::StoPtrOff
            | Opcode::GetPtrOff | Opcode::StoPtrOffPtr | Opcode::GetPtrOffPtr | Opcode::MovR => {
                Family::Transfer
            },
            Opcode::MemCpy | Opcode::MemCpyPtr | Opcode::MemCompare | Opcode::MemComparePtr
            | Opcode::MemFill => Family::Block,
            Opcode::SetRamFrame | Opcode::SetStackFrame | Opcode::SaveRegisters
            | Opcode::LodRegisters | Opcode::SetTimeout | Opcode::SetTimeoutAdd
            | Opcode::SetIntAddr | Opcode::Int | Opcode::CallPgrm | Opcode::RetInt
            | Opcode::SetPgrmStart | Opcode::SetRamSize | Opcode::SetPgrmSize
            | Opcode::SetStackSize | Opcode::SetFaultAddr | Opcode::Kill => Family::Control,
            Opcode::CpyRegion | Opcode::Plot | Opcode::CpyRegionPtr | Opcode::VBlank
            | Opcode::SwapFrameBuf | Opcode::ColorAt | Opcode::ColorPtr | Opcode::Place
            | Opcode::CpyShown | Opcode::Solid => Family::Video,
            Opcode::Less | Opcode::Grtr | Opcode::Eq | Opcode::LessImm | Opcode::GrtrImm
            | Opcode::EqImm | Opcode::ClrFlags | Opcode::SaveFlags | Opcode::Zero
            | Opcode::LoadFlags => Family::Flags,
            Opcode::Jmp | Opcode::Jic | Opcode::Jnc | Opcode::Jiz | Opcode::Jnz | Opcode::JiErr
            | Opcode::JnErr | Opcode::JiCry | Opcode::JnCry | Opcode::JmpPtr | Opcode::JicPtr
            | Opcode::JncPtr | Opcode::JizPtr | Opcode::JnzPtr | Opcode::JiCryPtr
            | Opcode::JnCryPtr => Family::Branch,
            Opcode::Psh | Opcode::PshCon | Opcode::Pop | Opcode::Index | Opcode::Edit
            | Opcode::Call | Opcode::Ret | Opcode::RetFramed | Opcode::SetStackPtr
            | Opcode::RetConst | Opcode::IndexPtr | Opcode::IndexOff | Opcode::IndexOffConst
            | Opcode::EditPtr | Opcode::PshPtr => Family::Stack,
            Opcode::Write | Opcode::Load | Opcode::WritePtr | Opcode::LoadPtr | Opcode::WriteSeg
            | Opcode::LoadSeg => Family::Disc,
            Opcode::ReadIn | Opcode::ReadInFlag | Opcode::WriteOut | Opcode::WriteOutFlag => {
                Family::Port
            },
            _ => Family::Arithmetic,
        }
    }
}

/// The low 32 bits of an index.
pub open spec fn spec_low32(index: usize) -> u32 {
    (index as int % 0x1_0000_0000) as u32
}

impl Machine {
    /// The three words of the slot at the program counter. Addresses wrap around at the end
    /// of RAM.
    pub open spec fn fetch(self) -> Seq<u16> {
        let pc = self.reg(PROGRAM_COUNTER);
        seq![
            self.ram_word(pc),
            self.ram_word(pc.wrapping_add(1)),
            self.ram_word(pc.wrapping_add(2)),
        ]
    }

    /// The state with the cycle counter moved on by `cost`; the counter wraps around at 16
    /// bits.
    pub open spec fn charge(self, cost: u16) -> Machine {
        self.set_reg(CYCLES, self.reg(CYCLES).wrapping_add(cost))
    }

    /// What an instruction does to the state, and where execution goes on: the rules of the
    /// instruction's family. `pc` is the address of the instruction.
    pub open spec fn execute(self, op: Opcode, ops: Seq<Parameter>, pc: u16, v_blank: bool) -> (
        Machine,
        Flow,
    ) {
        match op.spec_family() {
            Family::Transfer => self.transfer(op, ops),
            Family::Block => self.block(op, ops),
            Family::Control => self.control(op, ops, pc),
            Family::Video => self.video(op, ops, v_blank),
            Family::Arithmetic => self.arithmetic(op, ops),
            Family::Flags => self.flag_form(op, ops),
            Family::Branch => self.branch(op, ops),
            Family::Stack => self.stack_form(op, ops, pc),
            Family::Disc => self.disc_form(op, ops),
            Family::Port => self.port_form(op, ops),
        }
    }

    /// Whether the time of the running program is up: more cycles have passed since it was
    /// entered than the timeout allows.
    pub open spec fn timed_out(self) -> bool {
        self.reg(CYCLES).wrapping_sub(self.held_cycle_count) > self.reg(TIMEOUT_DURATION)
    }

    /// Whether `next` lies outside the code of the running program.
    pub open spec fn leaves_program(self, next: u16) -> bool {
        next.wrapping_sub(self.reg(PROGRAM_START)) > self.reg(PROGRAM_SIZE)
    }

    /// The end of a step. `pc` is the address of the instruction that was executed and
    /// `flow` says where it goes on.
    ///
    /// A stop leaves the program counter where it is. Otherwise the program counter moves
    /// to the next slot, three words on, or to the target of a jump. After an instruction
    /// that leaves the machine unprivileged, two checks come first: if the new program
    /// counter lies outside the program, the machine stops; if the program's time is up,
    /// the machine enters privileged mode at the timeout callback instead.
    pub open spec fn finish(self, flow: Flow, pc: u16) -> (Machine, Option<Halt>) {
        let next = match flow {
            Flow::Jump(target) => target,
            _ => pc.wrapping_add(3),
        };
        match flow {
            Flow::Stop(halt) => (self, Some(halt)),
            _ => if self.privileged() {
                (self.set_reg(PROGRAM_COUNTER, next), None)
            } else if self.leaves_program(next) {
                (self, Some(Halt::ProgramBounds))
            } else if self.timed_out() {
                (
                    self.set_reg(PROGRAM_COUNTER, self.reg(TIMEOUT_CALLBACK_ADDR)).set_reg(
                        PROTECTED,
                        1,
                    ),
                    None,
                )
            } else {
                (self.set_reg(PROGRAM_COUNTER, next), None)
            },
        }
    }

    /// One step of the machine: fetch the slot at the program counter, charge the cycles of
    /// its opcode byte, execute the instruction that the byte selects on the operands
    /// decoded from the slot, and move the program counter. An opcode byte that selects no
    /// instruction stops the machine. The result is the new state and, if the machine
    /// stopped, why.
    pub open spec fn step(self, v_blank: bool) -> (Machine, Option<Halt>) {
        let pc = self.reg(PROGRAM_COUNTER);
        let words = self.fetch();
        let opcode = (words[0] / 256) as u8;
        let charged = self.charge(spec_cycle_cost(opcode));
        match Opcode::spec_from_code(opcode) {
            None => (charged, Some(Halt::UnknownOpcode)),
            Some(op) => {
                let done = charged.execute(
                    op,
                    spec_decode_operands(words, op.spec_params()),
                    pc,
                    v_blank,
                );
                done.0.finish(done.1, pc)
            },
        }
    }

    /// At most `steps` steps of the machine, with no display attached: the machine runs
    /// until it stops or the steps are used up.
    pub open spec fn run(self, steps: nat) -> (Machine, Option<Halt>)
        decreases steps,
    {
        if steps == 0 {
            (self, None)
        } else {
            let stepped = self.step(false);
            match stepped.1 {
                Some(halt) => stepped,
                None => stepped.0.run((steps - 1) as nat),
            }
        }
    }

    /// The state after booting: the first 256 words of the disc are in RAM with the tags of
    /// their source lines, the program counter is behind the header at 3, and the mode is
    /// privileged.
    pub open spec fn boot(self) -> Machine {
        Machine {
            ram: Seq::new(
                MEMORY_WORDS as nat,
                |i: int|
                    if i < 256 {
                        self.disc_word(i as u32)
                    } else {
                        self.ram[i]
                    },
            ),
            trace_ram: Seq::new(
                MEMORY_WORDS as nat,
                |i: int|
                    if i < 256 {
                        self.disc_line(i as u32)
                    } else {
                        self.trace_ram[i]
                    },
            ),
            ..self
        }.set_reg(PROGRAM_COUNTER, 3).set_reg(PROTECTED, 1)
    }

    /// The state with a program image written to the disc, word by word in the order of
    /// the image, each word with the tag of its source line.
    pub open spec fn load_image(self, image: Seq<ImageWord>) -> Machine
        decreases image.len(),
    {
        if image.len() == 0 {
            self
        } else {
            self.load_image(image.drop_last()).set_disc_word(
                spec_low32(image.last().0),
                image.last().1.0,
            ).set_disc_line(spec_low32(image.last().0), image.last().1.1)
        }
    }
}

/// The instruction that the next step executes, if the opcode byte at the program counter
/// selects one.
pub open spec fn spec_fetched(m: Machine) -> Option<Opcode> {
    Opcode::spec_from_code((m.fetch()[0] / 256) as u8)
}

/// The operands that the next step executes its instruction on.
pub open spec fn spec_fetched_operands(m: Machine) -> Seq<Parameter> {
    spec_decode_operands(m.fetch(), spec_fetched(m)->0.spec_params())
}

/// The state in which the next step executes its instruction: the cycles are charged.
pub open spec fn spec_charged(m: Machine) -> Machine {
    m.charge(spec_cycle_cost((m.fetch()[0] / 256) as u8))
}

/// What the instruction of the next step does, before the program counter moves.
pub open spec fn spec_effect(m: Machine, v_blank: bool) -> (Machine, Flow) {
    spec_charged(m).execute(
        spec_fetched(m)->0,
        spec_fetched_operands(m),
        m.reg(PROGRAM_COUNTER),
        v_blank,
    )
}

/// A run of at least one step is one step, and the rest of the run if the machine did not
/// stop.
pub proof fn lemma_run_unfolds(m: Machine, steps: nat)
    requires
        steps > 0,
    ensures
        m.run(steps) == match m.step(false).1 {
            Some(halt) => m.step(false),
            None => m.step(false).0.run((steps - 1) as nat),
        },
{
}

impl Emulator {
    /// Writes a program image to the disc.
    pub fn load_image(&mut self, image: &Vec<ImageWord>)
        requires
            old(self).wf(),
        ensures
            final(self)@ == old(self)@.load_image(image@),
            final(self).wf(),
    {
        let ghost before = self@;
        let mut i: usize = 0;
        assert(image@.take(0) =~= Seq::<ImageWord>::empty());
        while i < image.len()
            invariant
                i <= image.len(),
                self.wf(),
                self@ == before.load_image(image@.take(i as int)),
            decreases image.len() - i,
        {
            let entry = image[i];
            proof {
                assert(image@.take(i + 1).drop_last() =~= image@.take(i as int));
                assert(image@.take(i + 1).last() == entry);
            }
            let at = ((entry.0 as u64) % 0x1_0000_0000) as u32;
            self.set_disc_word(at, entry.1.0);
            self.set_disc_line(at, entry.1.1);
            i += 1;
        }
        assert(image@.take(i as int) =~= image@);
    }

    /// Boots the machine: reads the first 256 words of the disc into RAM and enters the
    /// program behind the header in privileged mode.
    pub fn boot(&mut self)
        requires
            old(self).wf(),
        ensures
            final(self)@ == old(self)@.boot(),
            final(self).wf(),
    {
        let ghost before = self@;
        let mut k: u16 = 0;
        assert(before.ram =~= Seq::new(
            MEMORY_WORDS as nat,
            |i: int|
                if i < 0 {
                    before.disc_word(i as u32)
                } else {
                    before.ram[i]
                },
        ));
        assert(before.trace_ram =~= Seq::new(
            MEMORY_WORDS as nat,
            |i: int|
                if i < 0 {
                    before.disc_line(i as u32)
                } else {
                    before.trace_ram[i]
                },
        ));
        while k < 256
            invariant
                k <= 256,
                self.wf(),
                before.wf(),
                self@ == (Machine {
                    ram: Seq::new(
                        MEMORY_WORDS as nat,
                        |i: int|
                            if i < k {
                                before.disc_word(i as u32)
                            } else {
                                before.ram[i]
                            },
                    ),
                    trace_ram: Seq::new(
                        MEMORY_WORDS as nat,
                        |i: int|
                            if i < k {
                                before.disc_line(i as u32)
                            } else {
                                before.trace_ram[i]
                            },
                    ),
                    ..before
                }),
            decreases 256 - k,
        {
            let v = self.disc_word(k as u32);
            let line = self.disc_line(k as u32);
            self.set_ram_word(k, v);
            self.set_ram_line(k, line);
            proof {
                let next = Seq::new(
                    MEMORY_WORDS as nat,
                    |i: int|
                        if i < k + 1 {
                            before.disc_word(i as u32)
                        } else {
                            before.ram[i]
                        },
                );
                let next_lines = Seq::new(
                    MEMORY_WORDS as nat,
                    |i: int|
                        if i < k + 1 {
                            before.disc_line(i as u32)
                        } else {
                            before.trace_ram[i]
                        },
                );
                assert(self@.ram =~= next);
                assert(self@.trace_ram =~= next_lines);
            }
            k += 1;
        }
        self.set_reg(PROGRAM_COUNTER, 3);
        self.set_reg(PROTECTED, 1);
    }

    /// The instruction that the next step executes, if there is one.
    pub fn fetched(&self) -> (r: Option<Opcode>)
        requires
            self.wf(),
        ensures
            r == spec_fetched(self@),
    {
        let word = self.ram_word(self.reg(PROGRAM_COUNTER));
        Opcode::from_code((word / 256) as u8)
    }

    /// Executes an instruction on its operands.
    pub fn execute(&mut self, op: Opcode, ops: &Vec<Parameter>, pc: u16, v_blank: bool) -> (flow:
        Flow)
        requires
            old(self).wf(),
            ops@.len() == op.spec_params().len(),
        ensures
            (final(self)@, flow) == old(self)@.execute(op, ops@, pc, v_blank),
            final(self).wf(),
    {
        match op.family() {
            Family::Transfer => self.transfer(op, ops),
            Family::Block => self.block(op, ops),
            Family::Control => self.control(op, ops, pc),
            Family::Video => self.video(op, ops, v_blank),
            Family::Arithmetic => self.arithmetic(op, ops),
            Family::Flags => self.flag_form(op, ops),
            Family::Branch => self.branch(op, ops),
            Family::Stack => self.stack_form(op, ops, pc),
            Family::Disc => self.disc_form(op, ops),
            Family::Port => self.port_form(op, ops),
        }
    }

    /// Ends a step: moves the program counter, unless the machine stops or the running
    /// program's time is up.
    pub fn finish(&mut self, flow: Flow, pc: u16) -> (halt: Option<Halt>)
        requires
            old(self).wf(),
        ensures
            (final(self)@, halt) == old(self)@.finish(flow, pc),
            final(self).wf(),
    {
        let next = match flow {
            Flow::Stop(halt) => {
                return Some(halt);
            },
            Flow::Jump(target) => target,
            Flow::Next => pc.wrapping_add(3),
        };
        if !self.privileged() {
            if next.wrapping_sub(self.reg(PROGRAM_START)) > self.reg(PROGRAM_SIZE) {
                return Some(Halt::ProgramBounds);
            }
            if self.reg(CYCLES).wrapping_sub(self.held_cycle_count()) > self.reg(
                TIMEOUT_DURATION,
            ) {
                let target = self.reg(TIMEOUT_CALLBACK_ADDR);
                self.set_reg(PROGRAM_COUNTER, target);
                self.set_reg(PROTECTED, 1);
                return None;
            }
        }
        self.set_reg(PROGRAM_COUNTER, next);
        None
    }

    /// Executes one instruction. `v_blank` says whether the display has signalled the
    /// start of a blanking interval since it was last asked. Returns why the machine
    /// stopped, if it did.
    pub fn step(&mut self, v_blank: bool) -> (halt: Option<Halt>)
        requires
            old(self).wf(),
        ensures
            (final(self)@, halt) == old(self)@.step(v_blank),
            final(self).wf(),
    {
        let pc = self.reg(PROGRAM_COUNTER);
        let words = [
            self.ram_word(pc),
            self.ram_word(pc.wrapping_add(1)),
            self.ram_word(pc.wrapping_add(2)),
        ];
        assert(words@ =~= self@.fetch());
        let opcode = (words[0] / 256) as u8;
        let cost = self.cycle_cost(opcode);
        let cycles = self.reg(CYCLES);
        self.set_reg(CYCLES, cycles.wrapping_add(cost));
        match Opcode::from_code(opcode) {
            None => Some(Halt::UnknownOpcode),
            Some(op) => {
                let params = op.params();
                proof {
                    lemma_operands_fit_slot(op);
                }
                let ops = decode_operands(&words, &params);
                let flow = self.execute(op, &ops, pc, v_blank);
                self.finish(flow, pc)
            },
        }
    }

    /// Runs the machine for at most `steps` steps with no display attached. Returns why
    /// the machine stopped, or `None` if the steps were used up.
    pub fn run(&mut self, steps: u64) -> (halt: Option<Halt>)
        requires
            old(self).wf(),
        ensures
            (final(self)@, halt) == old(self)@.run(steps as nat),
            final(self).wf(),
    {
        let ghost before = self@;
        let mut left = steps;
        while left > 0
            invariant
                self.wf(),
                before == old(self)@,
                self@.run(left as nat) == before.run(steps as nat),
            decreases left,
        {
            let ghost now = self@;
            proof {
                lemma_run_unfolds(now, left as nat);
            }
            match self.step(false) {
                Some(halt) => {
                    assert(now.step(false) == (self@, Some(halt)));
                    return Some(halt);
                },
                None => {},
            }
            left -= 1;
        }
        None
    }
}

} // verus!
