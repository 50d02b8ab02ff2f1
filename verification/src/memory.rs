use crate::machine::{
    Emulator, Flow, Machine, FAULT_CALLBACK_ADDR, PROGRAM_START, PROTECTED, RAM_FRAME_START,
    RAM_SIZE, STACK_FRAME_START, STACK_SIZE,
};
use vstd::prelude::*;

verus! {

impl Machine {
    /// Whether a program may not touch the word of RAM at `index` of its frame: only an
    /// unprivileged program is held to its frame, and an index above the frame's size is
    /// outside.
    pub open spec fn ram_violation(self, index: u16) -> bool {
        !self.privileged() && index > self.reg(RAM_SIZE)
    }

    /// Whether a program may not touch the `len` words of RAM from `index` of its frame on.
    pub open spec fn ram_span_violation(self, index: u16, len: int) -> bool {
        !self.privileged() && index + len > self.reg(RAM_SIZE)
    }

    /// The absolute address of the word of RAM at `index`: the frame's origin is added for
    /// an unprivileged program, and addresses wrap around at the end of RAM.
    pub open spec fn ram_address(self, index: u16) -> u16 {
        index.wrapping_add(self.ram_offset())
    }

    /// The word of RAM that the running program sees at `index`.
    pub open spec fn load(self, index: u16) -> u16 {
        self.ram_word(self.ram_address(index))
    }

    /// The state with the word of RAM written that the running program sees at `index`.
    pub open spec fn store(self, index: u16, v: u16) -> Machine {
        self.set_ram_word(self.ram_address(index), v)
    }

    /// Whether a program may not touch the word of the stack at `index` of its frame.
    pub open spec fn stack_violation(self, index: u16) -> bool {
        !self.privileged() && index > self.reg(STACK_SIZE)
    }

    /// The absolute address of the word of the stack at `index`.
    pub open spec fn stack_address(self, index: u16) -> u16 {
        index.wrapping_add(self.stack_offset())
    }

    /// The word of the stack that the running program sees at `index`.
    pub open spec fn peek(self, index: u16) -> u16 {
        self.stack_word(self.stack_address(index))
    }

    /// The state with the word of the stack written that the running program sees at
    /// `index`.
    pub open spec fn poke(self, index: u16, v: u16) -> Machine {
        self.set_stack_word(self.stack_address(index), v)
    }

    /// The absolute address that a jump to `target` enters.
    pub open spec fn jump_address(self, target: u16) -> u16 {
        target.wrapping_add(self.pgc_offset())
    }
}

impl Emulator {
    /// Whether the machine runs in privileged mode.
    pub fn privileged(&self) -> (r: bool)
        requires
            self.wf(),
        ensures
            r == self@.privileged(),
    {
        self.reg(PROTECTED) != 0
    }

    /// What is added to a RAM address in the current mode.
    pub fn get_protected_ram_offset(&self) -> (r: u16)
        requires
            self.wf(),
        ensures
            r == self@.ram_offset(),
            r == if self@.privileged() {
                0
            } else {
                self@.reg(RAM_FRAME_START)
            },
    {
        let mode = self.reg(PROTECTED);
        let base = self.reg(RAM_FRAME_START);
        assert((1 - mode) * base == if mode == 0 {
            base as int
        } else {
            0
        }) by (nonlinear_arith)
            requires
                mode == 0 || mode == 1,
        ;
        (1 - mode) * base
    }

    /// What is added to a stack address in the current mode.
    pub fn get_protected_stack_offset(&self) -> (r: u16)
        requires
            self.wf(),
        ensures
            r == self@.stack_offset(),
            r == if self@.privileged() {
                0
            } else {
                self@.reg(STACK_FRAME_START)
            },
    {
        let mode = self.reg(PROTECTED);
        let base = self.reg(STACK_FRAME_START);
        assert((1 - mode) * base == if mode == 0 {
            base as int
        } else {
            0
        }) by (nonlinear_arith)
            requires
                mode == 0 || mode == 1,
        ;
        (1 - mode) * base
    }

    /// What is added to a jump target in the current mode.
    pub fn get_protected_pgc_offset(&self) -> (r: u16)
        requires
            self.wf(),
        ensures
            r == self@.pgc_offset(),
            r == if self@.privileged() {
                0
            } else {
                self@.reg(PROGRAM_START)
            },
    {
        let mode = self.reg(PROTECTED);
        let base = self.reg(PROGRAM_START);
        assert((1 - mode) * base == if mode == 0 {
            base as int
        } else {
            0
        }) by (nonlinear_arith)
            requires
                mode == 0 || mode == 1,
        ;
        (1 - mode) * base
    }

    /// Raises a fault: enters privileged mode and gives the fault callback as the place to
    /// go on.
    pub fn fault(&mut self) -> (flow: Flow)
        requires
            old(self).wf(),
        ensures
            (final(self)@, flow) == old(self)@.fault(),
            final(self).wf(),
    {
        let target = self.reg(FAULT_CALLBACK_ADDR);
        self.set_reg(PROTECTED, 1);
        Flow::Jump(target)
    }

    /// Whether the running program may not touch the word of RAM at `index`.
    pub fn ram_violation(&self, index: u16) -> (r: bool)
        requires
            self.wf(),
        ensures
            r == self@.ram_violation(index),
    {
        self.reg(PROTECTED) == 0 && index > self.reg(RAM_SIZE)
    }

    /// Whether the running program may not touch `len` words of RAM from `index` on.
    pub fn ram_span_violation(&self, index: u16, len: u16) -> (r: bool)
        requires
            self.wf(),
        ensures
            r == self@.ram_span_violation(index, len as int),
    {
        self.reg(PROTECTED) == 0 && (index as u32) + (len as u32) > (self.reg(RAM_SIZE) as u32)
    }

    /// Reads the word of RAM that the running program sees at `index`.
    pub fn load(&self, index: u16) -> (v: u16)
        requires
            self.wf(),
        ensures
            v == self@.load(index),
    {
        self.ram_word(index.wrapping_add(self.get_protected_ram_offset()))
    }

    /// Writes the word of RAM that the running program sees at `index`.
    pub fn store(&mut self, index: u16, v: u16)
        requires
            old(self).wf(),
        ensures
            final(self)@ == old(self)@.store(index, v),
            final(self).wf(),
    {
        let at = index.wrapping_add(self.get_protected_ram_offset());
        self.set_ram_word(at, v);
    }

    /// Whether the running program may not touch the word of the stack at `index`.
    pub fn stack_violation(&self, index: u16) -> (r: bool)
        requires
            self.wf(),
        ensures
            r == self@.stack_violation(index),
    {
        self.reg(PROTECTED) == 0 && index > self.reg(STACK_SIZE)
    }

    /// Reads the word of the stack that the running program sees at `index`.
    pub fn peek(&self, index: u16) -> (v: u16)
        requires
            self.wf(),
        ensures
            v == self@.peek(index),
    {
        self.stack_word(index.wrapping_add(self.get_protected_stack_offset()))
    }

    /// Writes the word of the stack that the running program sees at `index`.
    pub fn poke(&mut self, index: u16, v: u16)
        requires
            old(self).wf(),
        ensures
            final(self)@ == old(self)@.poke(index, v),
            final(self).wf(),
    {
        let at = index.wrapping_add(self.get_protected_stack_offset());
        self.set_stack_word(at, v);
    }

    /// The absolute address that a jump to `target` enters.
    pub fn jump_address(&self, target: u16) -> (r: u16)
        requires
            self.wf(),
        ensures
            r == self@.jump_address(target),
    {
        target.wrapping_add(self.get_protected_pgc_offset())
    }
}

} // verus!
