use crate::assembler::Parameter;
use crate::flags::{spec_truth, truth};
use crate::isa::Opcode;
use crate::machine::{
    Emulator, Flow, Machine, CONDITION_FLAG, FRAME_WORDS, SCREEN_HEIGHT, SCREEN_WIDTH,
};
use vstd::prelude::*;

verus! {

/// The instructions that work on the frame buffers.
pub open spec fn spec_is_video(op: Opcode) -> bool {
    matches!(
        op,
        Opcode::CpyRegion | Opcode::Plot | Opcode::CpyRegionPtr | Opcode::VBlank
            | Opcode::SwapFrameBuf | Opcode::ColorAt | Opcode::ColorPtr | Opcode::Place
            | Opcode::CpyShown | Opcode::Solid
    )
}

/// Whether the display has a pixel in column `x` of row `y`.
pub open spec fn pixel_exists(x: u16, y: u16) -> bool {
    x < SCREEN_WIDTH && y < SCREEN_HEIGHT
}

/// Index of a pixel in its frame buffer: the rows follow one another.
pub open spec fn pixel_index(x: u16, y: u16) -> int {
    x + y * SCREEN_WIDTH
}

/// Whether the pixel at index `p` of a frame buffer lies in the rectangle that starts in
/// column `x` of row `y` and is `w` pixels wide and `h` pixels high.
pub open spec fn in_rectangle(p: int, x: u16, y: u16, w: u16, h: u16) -> bool {
    &&& 0 <= p < FRAME_WORDS
    &&& x <= p % (SCREEN_WIDTH as int) < x + w
    &&& y <= p / (SCREEN_WIDTH as int) < y + h
}

impl Machine {
    /// The state with one pixel of the frame buffer that is not shown set to the colour
    /// `c`. Where the display has no such pixel, nothing changes.
    pub open spec fn plot(self, x: u16, y: u16, c: u16) -> Machine {
        if pixel_exists(x, y) {
            self.set_v_ram_word(self.dead_zone() + pixel_index(x, y), c)
        } else {
            self
        }
    }

    /// The colour of one pixel of the frame buffer that is shown, or zero where the display
    /// has no such pixel.
    pub open spec fn color_at(self, x: u16, y: u16) -> u16 {
        if pixel_exists(x, y) {
            self.v_ram[self.frame_buffer_ptr + pixel_index(x, y)]
        } else {
            0
        }
    }

    /// The state with `len` words of RAM from the absolute address `ram_base` on copied
    /// into the frame buffer that is not shown, from index `v_base` on. A frame buffer is
    /// longer than any index and length of 16 bits can add up to.
    pub open spec fn copy_region(self, ram_base: u16, v_base: u16, len: u16) -> Machine {
        Machine {
            v_ram: Seq::new(
                (2 * FRAME_WORDS) as nat,
                |i: int|
                    {
                        let k = i - self.dead_zone() - v_base;
                        if 0 <= k < len {
                            self.ram_word(ram_base.wrapping_add(k as u16))
                        } else {
                            self.v_ram[i]
                        }
                    },
            ),
            ..self
        }
    }

    /// The word of RAM that holds the pixel at index `p` of the display, for a sprite of
    /// width `w` that lies from the absolute address `ram_pos` on, row after row, and is
    /// placed with its first pixel in column `x` of row `y`.
    pub open spec fn sprite_word(self, ram_pos: u16, p: int, x: u16, y: u16, w: u16) -> u16 {
        self.ram[(ram_pos + (p % (SCREEN_WIDTH as int) - x) + (p / (SCREEN_WIDTH as int) - y) * w)
            % (0x1_0000 as int)]
    }

    /// The colour that painting gives the pixel at index `p`: that of the sprite at
    /// `sprite`, or the colour `c` where there is no sprite.
    pub open spec fn paint_word(
        self,
        sprite: Option<u16>,
        c: u16,
        p: int,
        x: u16,
        y: u16,
        w: u16,
    ) -> u16 {
        match sprite {
            Some(ram_pos) => self.sprite_word(ram_pos, p, x, y, w),
            None => c,
        }
    }

    /// The state with a rectangle of the frame buffer that is not shown painted, with a
    /// sprite or with one colour. The rectangle is cut off at the edges of the display.
    pub open spec fn paint(self, sprite: Option<u16>, c: u16, x: u16, y: u16, w: u16, h: u16)
        -> Machine {
        Machine {
            v_ram: Seq::new(
                (2 * FRAME_WORDS) as nat,
                |i: int|
                    if in_rectangle(i - self.dead_zone(), x, y, w, h) {
                        self.paint_word(sprite, c, i - self.dead_zone(), x, y, w)
                    } else {
                        self.v_ram[i]
                    },
            ),
            ..self
        }
    }

    /// The state with a rectangle of the frame buffer that is not shown filled with the
    /// colour `c`.
    pub open spec fn solid(self, x: u16, y: u16, w: u16, h: u16, c: u16) -> Machine {
        self.paint(None, c, x, y, w, h)
    }

    /// The state with a sprite of `w` by `h` pixels drawn into the frame buffer that is not
    /// shown, its first pixel in column `x` of row `y`.
    pub open spec fn place(self, ram_pos: u16, x: u16, y: u16, w: u16, h: u16) -> Machine {
        self.paint(Some(ram_pos), 0, x, y, w, h)
    }

    /// The state with the frame buffer that is shown copied into the other one.
    pub open spec fn copy_shown(self) -> Machine {
        Machine {
            v_ram: Seq::new(
                (2 * FRAME_WORDS) as nat,
                |i: int|
                    if 0 <= i - self.dead_zone() < FRAME_WORDS {
                        self.v_ram[self.frame_buffer_ptr + (i - self.dead_zone())]
                    } else {
                        self.v_ram[i]
                    },
            ),
            ..self
        }
    }

    /// An instruction that works on the frame buffers. All of them fault when unprivileged.
    /// `v_blank` says whether the display has signalled the start of a blanking interval
    /// since it was last asked.
    ///
    /// Drawing goes to the frame buffer that is not shown: `Plot c x y` sets a pixel,
    /// `Solid x y w h c` fills a rectangle, `Place a x y w h` draws the sprite at address
    /// `a`, all from registers; `CpyRegion a v n` copies `n` words of RAM at `a` to index
    /// `v` of the buffer, from constants, and `CpyRegionPtr` does so from registers.
    /// `ColorAt x y r` and `ColorPtr x y r` read a pixel of the frame buffer that is shown,
    /// at constant or at register coordinates. `SwapFrameBuf` shows the other frame
    /// buffer, `CpyShown` copies the one that is shown into the other, and `VBlank` sets
    /// the condition flag to `v_blank`.
    pub open spec fn video(self, op: Opcode, ops: Seq<Parameter>, v_blank: bool) -> (
        Machine,
        Flow,
    ) {
        if !self.privileged() {
            self.fault()
        } else {
            let a = self.reg(ops[0].spec_byte());
            let b = self.reg(ops[1].spec_byte());
            let c = self.reg(ops[2].spec_byte());
            let d = self.reg(ops[3].spec_byte());
            let e = self.reg(ops[4].spec_byte());
            let state = match op {
                Opcode::CpyRegion => self.copy_region(
                    ops[0].spec_word(),
                    ops[1].spec_word(),
                    ops[2].spec_byte() as u16,
                ),
                Opcode::CpyRegionPtr => self.copy_region(a, b, c),
                Opcode::Plot => self.plot(b, c, a),
                Opcode::VBlank => self.set_reg(CONDITION_FLAG, spec_truth(v_blank)),
                Opcode::SwapFrameBuf => self.swap_frame_buffers(),
                Opcode::ColorAt => self.set_reg(
                    ops[2].spec_byte(),
                    self.color_at(ops[0].spec_word(), ops[1].spec_word()),
                ),
                Opcode::ColorPtr => self.set_reg(ops[2].spec_byte(), self.color_at(a, b)),
                Opcode::Place => self.place(a, b, c, d, e),
                Opcode::CpyShown => self.copy_shown(),
                Opcode::Solid => self.solid(a, b, c, d, e),
                _ => self,
            };
            (state, Flow::Next)
        }
    }
}

/// The smaller of a sum and a bound.
fn capped(start: u16, len: u16, bound: usize) -> (end: usize)
    requires
        bound <= 0xffff,
    ensures
        end == if start + len <= bound {
            (start + len) as usize
        } else {
            bound
        },
{
    let sum = start as usize + len as usize;
    if sum <= bound {
        sum
    } else {
        bound
    }
}

impl Emulator {
    /// Where the frame buffer that is drawn to starts.
    pub fn dead_zone(&self) -> (p: usize)
        requires
            self.wf(),
        ensures
            p == self@.dead_zone(),
            p == 0 || p == FRAME_WORDS,
    {
        FRAME_WORDS - self.frame_buffer_ptr()
    }

    /// Sets one pixel of the frame buffer that is not shown.
    pub fn plot(&mut self, x: u16, y: u16, c: u16)
        requires
            old(self).wf(),
        ensures
            final(self)@ == old(self)@.plot(x, y, c),
            final(self).wf(),
    {
        if (x as usize) < SCREEN_WIDTH && (y as usize) < SCREEN_HEIGHT {
            let at = self.dead_zone() + x as usize + y as usize * SCREEN_WIDTH;
            self.set_v_ram_word(at, c);
        }
    }

    /// Reads one pixel of the frame buffer that is shown.
    pub fn color_at(&self, x: u16, y: u16) -> (c: u16)
        requires
            self.wf(),
        ensures
            c == self@.color_at(x, y),
    {
        if (x as usize) < SCREEN_WIDTH && (y as usize) < SCREEN_HEIGHT {
            self.v_ram_word(self.frame_buffer_ptr() + x as usize + y as usize * SCREEN_WIDTH)
        } else {
            0
        }
    }

    /// Copies words of RAM into the frame buffer that is not shown.
    pub fn copy_region(&mut self, ram_base: u16, v_base: u16, len: u16)
        requires
            old(self).wf(),
        ensures
            final(self)@ == old(self)@.copy_region(ram_base, v_base, len),
            final(self).wf(),
    {
        let ghost before = self@;
        let dead = self.dead_zone();
        let mut k: u16 = 0;
        assert(before.v_ram =~= Seq::new(
            (2 * FRAME_WORDS) as nat,
            |i: int|
                {
                    let j = i - dead - v_base;
                    if 0 <= j < 0 {
                        before.ram_word(ram_base.wrapping_add(j as u16))
                    } else {
                        before.v_ram[i]
                    }
                },
        ));
        while k < len
            invariant
                k <= len,
                self.wf(),
                before.wf(),
                dead == before.dead_zone(),
                self@ == (Machine {
                    v_ram: Seq::new(
                        (2 * FRAME_WORDS) as nat,
                        |i: int|
                            {
                                let j = i - dead - v_base;
                                if 0 <= j < k {
                                    before.ram_word(ram_base.wrapping_add(j as u16))
                                } else {
                                    before.v_ram[i]
                                }
                            },
                    ),
                    ..before
                }),
            decreases len - k,
        {
            let v = self.ram_word(ram_base.wrapping_add(k));
            self.set_v_ram_word(dead + v_base as usize + k as usize, v);
            proof {
                let next = Seq::new(
                    (2 * FRAME_WORDS) as nat,
                    |i: int|
                        {
                            let j = i - dead - v_base;
                            if 0 <= j < k + 1 {
                                before.ram_word(ram_base.wrapping_add(j as u16))
                            } else {
                                before.v_ram[i]
                            }
                        },
                );
                assert(self@.v_ram =~= next);
            }
            k += 1;
        }
    }

    /// Copies the frame buffer that is shown into the other one.
    pub fn copy_shown(&mut self)
        requires
            old(self).wf(),
        ensures
            final(self)@ == old(self)@.copy_shown(),
            final(self).wf(),
    {
        let ghost before = self@;
        let dead = self.dead_zone();
        let shown = self.frame_buffer_ptr();
        let mut p: usize = 0;
        assert(before.v_ram =~= Seq::new(
            (2 * FRAME_WORDS) as nat,
            |i: int|
                if 0 <= i - dead < 0 {
                    before.v_ram[shown + (i - dead)]
                } else {
                    before.v_ram[i]
                },
        ));
        while p < FRAME_WORDS
            invariant
                p <= FRAME_WORDS,
                self.wf(),
                before.wf(),
                dead == before.dead_zone(),
                shown == before.frame_buffer_ptr,
                self@ == (Machine {
                    v_ram: Seq::new(
                        (2 * FRAME_WORDS) as nat,
                        |i: int|
                            if 0 <= i - dead < p {
                                before.v_ram[shown + (i - dead)]
                            } else {
                                before.v_ram[i]
                            },
                    ),
                    ..before
                }),
            decreases FRAME_WORDS - p,
        {
            let v = self.v_ram_word(shown + p);
            self.set_v_ram_word(dead + p, v);
            proof {
                let next = Seq::new(
                    (2 * FRAME_WORDS) as nat,
                    |i: int|
                        if 0 <= i - dead < p + 1 {
                            before.v_ram[shown + (i - dead)]
                        } else {
                            before.v_ram[i]
                        },
                );
                assert(self@.v_ram =~= next);
            }
            p += 1;
        }
    }

    /// Paints a rectangle of the frame buffer that is not shown.
    pub fn paint(&mut self, sprite: Option<u16>, c: u16, x: u16, y: u16, w: u16, h: u16)
        requires
            old(self).wf(),
        ensures
            final(self)@ == old(self)@.paint(sprite, c, x, y, w, h),
            final(self).wf(),
    {
        let ghost before = self@;
        let dead = self.dead_zone();
        let right = capped(x, w, SCREEN_WIDTH);
        let bottom = capped(y, h, SCREEN_HEIGHT);
        let mut row: usize = y as usize;
        assert(before.v_ram =~= Seq::new(
            (2 * FRAME_WORDS) as nat,
            |i: int|
                if in_rectangle(i - dead, x, y, w, h) && (i - dead) / (SCREEN_WIDTH as int) < row {
                    before.paint_word(sprite, c, i - dead, x, y, w)
                } else {
                    before.v_ram[i]
                },
        ));
        while row < bottom
            invariant
                y <= row,
                row <= bottom || bottom <= y,
                bottom <= SCREEN_HEIGHT,
                right <= SCREEN_WIDTH,
                right == if x + w <= SCREEN_WIDTH {
                    (x + w) as usize
                } else {
                    SCREEN_WIDTH
                },
                bottom == if y + h <= SCREEN_HEIGHT {
                    (y + h) as usize
                } else {
                    SCREEN_HEIGHT
                },
                self.wf(),
                before.wf(),
                dead == before.dead_zone(),
                self@ == (Machine {
                    v_ram: Seq::new(
                        (2 * FRAME_WORDS) as nat,
                        |i: int|
                            if in_rectangle(i - dead, x, y, w, h) && (i - dead) / (
                            SCREEN_WIDTH as int) < row {
                                before.paint_word(sprite, c, i - dead, x, y, w)
                            } else {
                                before.v_ram[i]
                            },
                    ),
                    ..before
                }),
            decreases bottom - row,
        {
            let mut column: usize = x as usize;
            assert(self@.v_ram =~= Seq::new(
                (2 * FRAME_WORDS) as nat,
                |i: int|
                    if in_rectangle(i - dead, x, y, w, h) && ((i - dead) / (SCREEN_WIDTH as int)
                        < row || ((i - dead) / (SCREEN_WIDTH as int) == row && (i - dead) % (
                    SCREEN_WIDTH as int) < column)) {
                        before.paint_word(sprite, c, i - dead, x, y, w)
                    } else {
                        before.v_ram[i]
                    },
            ));
            while column < right
                invariant
                    x <= column,
                    column <= right || right <= x,
                    y <= row < bottom,
                    bottom <= SCREEN_HEIGHT,
                    right <= SCREEN_WIDTH,
                    right == if x + w <= SCREEN_WIDTH {
                        (x + w) as usize
                    } else {
                        SCREEN_WIDTH
                    },
                    bottom == if y + h <= SCREEN_HEIGHT {
                        (y + h) as usize
                    } else {
                        SCREEN_HEIGHT
                    },
                    self.wf(),
                    before.wf(),
                    dead == before.dead_zone(),
                    self@ == (Machine {
                        v_ram: Seq::new(
                            (2 * FRAME_WORDS) as nat,
                            |i: int|
                                if in_rectangle(i - dead, x, y, w, h) && ((i - dead) / (
                                SCREEN_WIDTH as int) < row || ((i - dead) / (SCREEN_WIDTH as int)
                                    == row && (i - dead) % (SCREEN_WIDTH as int) < column)) {
                                    before.paint_word(sprite, c, i - dead, x, y, w)
                                } else {
                                    before.v_ram[i]
                                },
                        ),
                        ..before
                    }),
                decreases right - column,
            {
                let p = column + row * SCREEN_WIDTH;
                assert(p % SCREEN_WIDTH == column && p / SCREEN_WIDTH == row);
                let v = match sprite {
                    Some(ram_pos) => {
                        let across = (column - x as usize) as u64;
                        let down = (row - y as usize) as u64;
                        assert(down * (w as u64) <= 320 * 0xffff) by (nonlinear_arith)
                            requires
                                down <= 320,
                                w <= 0xffff,
                        ;
                        let at = (ram_pos as u64 + across + down * (w as u64)) % 0x1_0000;
                        self.ram_word(at as u16)
                    },
                    None => c,
                };
                assert(v == before.paint_word(sprite, c, p as int, x, y, w));
                self.set_v_ram_word(dead + p, v);
                proof {
                    let next = Seq::new(
                        (2 * FRAME_WORDS) as nat,
                        |i: int|
                            if in_rectangle(i - dead, x, y, w, h) && ((i - dead) / (
                            SCREEN_WIDTH as int) < row || ((i - dead) / (SCREEN_WIDTH as int)
                                == row && (i - dead) % (SCREEN_WIDTH as int) < column + 1)) {
                                before.paint_word(sprite, c, i - dead, x, y, w)
                            } else {
                                before.v_ram[i]
                            },
                    );
                    assert(self@.v_ram =~= next);
                }
                column += 1;
            }
            proof {
                let next = Seq::new(
                    (2 * FRAME_WORDS) as nat,
                    |i: int|
                        if in_rectangle(i - dead, x, y, w, h) && (i - dead) / (SCREEN_WIDTH as int)
                            < row + 1 {
                            before.paint_word(sprite, c, i - dead, x, y, w)
                        } else {
                            before.v_ram[i]
                        },
                );
                assert(self@.v_ram =~= next);
            }
            row += 1;
        }
        assert(self@.v_ram =~= before.paint(sprite, c, x, y, w, h).v_ram);
    }

    /// Executes an instruction that works on the frame buffers.
    pub fn video(&mut self, op: Opcode, ops: &Vec<Parameter>, v_blank: bool) -> (flow: Flow)
        requires
            old(self).wf(),
            spec_is_video(op),
            ops@.len() == op.spec_params().len(),
        ensures
            (final(self)@, flow) == old(self)@.video(op, ops@, v_blank),
            final(self).wf(),
    {
        if !self.privileged() {
            return self.fault();
        }
        match op {
            Opcode::CpyRegion => {
                self.copy_region(ops[0].word(), ops[1].word(), ops[2].byte() as u16);
            },
            Opcode::CpyRegionPtr => {
                let a = self.reg(ops[0].byte());
                let b = self.reg(ops[1].byte());
                let c = self.reg(ops[2].byte());
                self.copy_region(a, b, c);
            },
            Opcode::Plot => {
                let a = self.reg(ops[0].byte());
                let b = self.reg(ops[1].byte());
                let c = self.reg(ops[2].byte());
                self.plot(b, c, a);
            },
            Opcode::VBlank => {
                self.set_reg(CONDITION_FLAG, truth(v_blank));
            },
            Opcode::SwapFrameBuf => {
                self.swap_frame_buffers();
            },
            Opcode::ColorAt => {
                let v = self.color_at(ops[0].word(), ops[1].word());
                self.set_reg(ops[2].byte(), v);
            },
            Opcode::ColorPtr => {
                let a = self.reg(ops[0].byte());
                let b = self.reg(ops[1].byte());
                let v = self.color_at(a, b);
                self.set_reg(ops[2].byte(), v);
            },
            Opcode::Place => {
                let a = self.reg(ops[0].byte());
                let b = self.reg(ops[1].byte());
                let c = self.reg(ops[2].byte());
                let d = self.reg(ops[3].byte());
                let e = self.reg(ops[4].byte());
                self.paint(Some(a), 0, b, c, d, e);
            },
            Opcode::CpyShown => {
                self.copy_shown();
            },
            Opcode::Solid => {
                let a = self.reg(ops[0].byte());
                let b = self.reg(ops[1].byte());
                let c = self.reg(ops[2].byte());
                let d = self.reg(ops[3].byte());
                let e = self.reg(ops[4].byte());
                self.paint(None, e, a, b, c, d);
            },
            _ => {},
        }
        Flow::Next
    }
}

} // verus!
