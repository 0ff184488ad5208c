//! The mathematical model of the machine: its state as plain sequences and
//! numbers, and what each operation makes of it.

use vstd::prelude::*;
use crate::fault::Fault;
use crate::font::font;
use crate::op::{decode_spec, Op};

verus! {

/// Number of bytes of memory.
pub const MEMORY_SIZE: usize = 4096;

/// Address at which a program image is placed and at which execution starts.
pub const PROGRAM_START: u16 = 0x200;

/// Number of display columns.
pub const COLS: usize = 64;

/// Number of display rows.
pub const ROWS: usize = 32;

/// Number of display cells.
pub const CELLS: usize = 2048;

/// Number of general registers.
pub const REGISTERS: usize = 16;

/// The register that doubles as carry, borrow and collision flag.
pub const FLAG: usize = 15;

/// Bytes per glyph of the built-in font.
pub const GLYPH_STRIDE: u16 = 5;

/// Instructions dispatched per tick unless configured otherwise.
pub const DEFAULT_SPEED: usize = 10;

/// Frequency of the tone, in hertz.
pub const TONE_HZ: u32 = 440;

/// What the host is to do with its tone generator.
#[derive(Clone, Copy, Debug, PartialEq, Eq, Structural)]
pub enum Audio {
    /// Sound a tone of the given frequency, in hertz.
    Play { frequency: u32 },
    /// Be silent.
    Stop,
}

/// The machine's state.
#[verifier::ext_equal]
pub struct State {
    /// The 4096 bytes of memory.
    pub memory: Seq<u8>,
    /// The registers `V0..VF`.
    pub registers: Seq<u8>,
    /// The display cells, row by row, each 0 or 1.
    pub display: Seq<u8>,
    /// The index register `I`.
    pub index: u16,
    /// The delay timer.
    pub delay_timer: u8,
    /// The sound timer.
    pub sound_timer: u8,
    /// The program counter.
    pub pc: u16,
    /// The return addresses, innermost call last.
    pub stack: Seq<u16>,
    /// The register that waits for a key; while it is `Some`, dispatch is
    /// suspended.
    pub awaiting_key: Option<u8>,
    /// Instructions dispatched per tick.
    pub speed: usize,
}

/// The display cell of the coordinate `(x, y)`; both axes wrap around.
pub open spec fn cell_index(x: int, y: int) -> int {
    (x % 64) + (y % 32) * 64
}

/// A coordinate and its wrapped form name the same cell.
pub proof fn cell_index_wraps(x: int, y: int)
    ensures
        cell_index(x % 64, y % 32) == cell_index(x, y),
        0 <= cell_index(x, y) < CELLS,
{
}

/// The display with the cell of `(x, y)` inverted.
pub open spec fn toggled(display: Seq<u8>, x: int, y: int) -> Seq<u8> {
    let p = cell_index(x, y);
    display.update(p, (1 - display[p]) as u8)
}

/// Whether column `col` of a sprite row is lit. Column 0 is the most
/// significant bit.
pub open spec fn sprite_bit(row: u8, col: u8) -> bool {
    row & (0x80u8 >> col) != 0
}

/// Whether key `key` is held in the key mask `keys`, in which bit `k` stands
/// for key `k`. Only the keys 0 to 15 exist.
pub open spec fn key_down(keys: u16, key: u8) -> bool {
    key < 16 && keys & (1u16 << key) != 0
}

/// The random byte that the dispatch slot `slot` of a tick draws from
/// `random`: the byte at that position, and 0 beyond its end.
pub open spec fn random_at(random: Seq<u8>, slot: int) -> u8 {
    if 0 <= slot < random.len() {
        random[slot]
    } else {
        0
    }
}

impl State {
    /// The state of a machine that was just built around the program image
    /// `rom`: the font at the bottom of memory, the image at the load
    /// address, the program counter on its first byte, all else zero.
    pub open spec fn boot(rom: Seq<u8>) -> State {
        State {
            memory: Seq::new(
                MEMORY_SIZE as nat,
                |a: int|
                    if a < font().len() {
                        font()[a]
                    } else if PROGRAM_START <= a < PROGRAM_START + rom.len() {
                        rom[a - PROGRAM_START]
                    } else {
                        0u8
                    },
            ),
            registers: Seq::new(REGISTERS as nat, |r: int| 0u8),
            display: Seq::new(CELLS as nat, |p: int| 0u8),
            index: 0,
            delay_timer: 0,
            sound_timer: 0,
            pc: PROGRAM_START,
            stack: Seq::empty(),
            awaiting_key: None,
            speed: DEFAULT_SPEED,
        }
    }

    /// The sizes are right, every display cell is 0 or 1, and a register
    /// that waits for a key exists.
    pub open spec fn wf(self) -> bool {
        &&& self.memory.len() == MEMORY_SIZE
        &&& self.registers.len() == REGISTERS
        &&& self.display.len() == CELLS
        &&& forall|p: int| 0 <= p < CELLS ==> #[trigger] self.display[p] <= 1
        &&& self.awaiting_key matches Some(x) ==> x < 16
    }

    /// Whether dispatch is suspended.
    pub open spec fn paused(self) -> bool {
        self.awaiting_key is Some
    }

    /// The value of register `x`.
    pub open spec fn reg(self, x: u8) -> u8 {
        self.registers[x as int]
    }

    /// The state with register `x` set to `value`.
    pub open spec fn set_reg(self, x: u8, value: u8) -> State {
        State { registers: self.registers.update(x as int, value), ..self }
    }

    /// The state with the flag register set to 1 or 0.
    pub open spec fn set_flag(self, on: bool) -> State {
        State { registers: self.registers.update(FLAG as int, if on { 1u8 } else { 0u8 }), ..self }
    }

    /// The state with the program counter moved past one more instruction if
    /// `cond` holds.
    pub open spec fn skip_if(self, cond: bool) -> State {
        if cond {
            State { pc: (self.pc + 2) as u16, ..self }
        } else {
            self
        }
    }

    /// The instruction word at the program counter, high byte first.
    pub open spec fn word_at_pc(self) -> u16 {
        (self.memory[self.pc as int] * 256 + self.memory[self.pc + 1]) as u16
    }

    /// Whether the sprite of `rows` lines at the index register, drawn with
    /// its top left corner at `(x0, y0)`, has a lit bit on cell `p`: the cell
    /// lies less than 8 columns to the right of and less than `rows` rows
    /// below the corner, going round the display, and the bit for it is set.
    pub open spec fn lit(self, x0: int, y0: int, rows: int, p: int) -> bool {
        let c = (p % 64 - x0) % 64;
        let r = (p / 64 - y0) % 32;
        c < 8 && r < rows && sprite_bit(self.memory[self.index + r], c as u8)
    }

    /// The display after the sprite was drawn: the cells under its lit bits
    /// are inverted.
    pub open spec fn drawn(self, x0: int, y0: int, rows: int) -> Seq<u8> {
        Seq::new(
            CELLS as nat,
            |p: int|
                if self.lit(x0, y0, rows, p) {
                    (1 - self.display[p]) as u8
                } else {
                    self.display[p]
                },
        )
    }

    /// Whether drawing the sprite puts out a cell that was on.
    pub open spec fn collides(self, x0: int, y0: int, rows: int) -> bool {
        exists|p: int| 0 <= p < CELLS && self.lit(x0, y0, rows, p) && self.display[p] == 1
    }

    /// As `lit`, for the part of the sprite that comes before column `col`
    /// of line `row` in reading order.
    pub open spec fn lit_before(self, x0: int, y0: int, row: int, col: int, p: int) -> bool {
        let c = (p % 64 - x0) % 64;
        let r = (p / 64 - y0) % 32;
        &&& c < 8
        &&& r < row || (r == row && c < col)
        &&& sprite_bit(self.memory[self.index + r], c as u8)
    }

    /// As `drawn`, for the part of the sprite before column `col` of line `row`.
    pub open spec fn drawn_before(self, x0: int, y0: int, row: int, col: int) -> Seq<u8> {
        Seq::new(
            CELLS as nat,
            |p: int|
                if self.lit_before(x0, y0, row, col, p) {
                    (1 - self.display[p]) as u8
                } else {
                    self.display[p]
                },
        )
    }

    /// As `collides`, for the part of the sprite before column `col` of line
    /// `row`.
    pub open spec fn collides_before(self, x0: int, y0: int, row: int, col: int) -> bool {
        exists|p: int| 0 <= p < CELLS && self.lit_before(x0, y0, row, col, p) && self.display[p] == 1
    }

    /// The fault that operation `op` runs into in this state, if any.
    pub open spec fn op_fault(self, op: Op) -> Option<Fault> {
        match op {
            Op::Return => if self.stack.len() == 0 {
                Some(Fault::StackUnderflow)
            } else {
                None
            },
            Op::Draw { rows, .. } => if self.index + rows > MEMORY_SIZE {
                Some(Fault::OutOfRange)
            } else {
                None
            },
            Op::Bcd { .. } => if self.index + 2 >= MEMORY_SIZE {
                Some(Fault::OutOfRange)
            } else {
                None
            },
            Op::Store { x } | Op::Load { x } => if self.index + x >= MEMORY_SIZE {
                Some(Fault::OutOfRange)
            } else {
                None
            },
            _ => None,
        }
    }

    /// The state after operation `op`, where `op_fault` is `None`. The
    /// program counter already points behind the instruction.
    pub open spec fn apply(self, op: Op, keys: u16, rnd: u8) -> State {
        match op {
            Op::ClearScreen => State { display: Seq::new(CELLS as nat, |p: int| 0u8), ..self },
            Op::Return => State {
                pc: self.stack.last(),
                stack: self.stack.drop_last(),
                ..self
            },
            Op::Jump { addr } => State { pc: addr, ..self },
            Op::Call { addr } => State { pc: addr, stack: self.stack.push(self.pc), ..self },
            Op::SkipEqImm { x, byte } => self.skip_if(self.reg(x) == byte),
            Op::SkipNeImm { x, byte } => self.skip_if(self.reg(x) != byte),
            Op::SkipEqReg { x, y } => self.skip_if(self.reg(x) == self.reg(y)),
            Op::SkipNeReg { x, y } => self.skip_if(self.reg(x) != self.reg(y)),
            Op::LoadImm { x, byte } => self.set_reg(x, byte),
            Op::AddImm { x, byte } => self.set_reg(x, ((self.reg(x) + byte) % 256) as u8),
            Op::Move { x, y } => self.set_reg(x, self.reg(y)),
            Op::Or { x, y } => self.set_reg(x, self.reg(x) | self.reg(y)),
            Op::And { x, y } => self.set_reg(x, self.reg(x) & self.reg(y)),
            Op::Xor { x, y } => self.set_reg(x, self.reg(x) ^ self.reg(y)),
            Op::AddCarry { x, y } => {
                let sum = self.reg(x) + self.reg(y);
                self.set_reg(x, (sum % 256) as u8).set_flag(sum > 255)
            },
            Op::SubBorrow { x, y } => {
                let diff = self.reg(x) - self.reg(y);
                self.set_reg(x, (diff % 256) as u8).set_flag(diff < 0)
            },
            Op::SubReverse { x, y } => {
                let diff = self.reg(y) - self.reg(x);
                self.set_reg(x, (diff % 256) as u8).set_flag(diff < 0)
            },
            Op::ShiftRight { x, .. } => {
                let v = self.reg(x);
                self.set_reg(x, (v / 2) as u8).set_flag(v % 2 == 1)
            },
            Op::ShiftLeft { x, .. } => {
                let v = self.reg(x);
                self.set_reg(x, ((v * 2) % 256) as u8).set_flag(v >= 128)
            },
            Op::LoadIndex { addr } => State { index: addr, ..self },
            Op::JumpOffset { addr } => State { pc: (addr + self.reg(0)) as u16, ..self },
            Op::Random { x, byte } => self.set_reg(x, rnd & byte),
            Op::Draw { x, y, rows } => {
                let x0 = self.reg(x) as int;
                let y0 = self.reg(y) as int;
                State { display: self.drawn(x0, y0, rows as int), ..self }.set_flag(
                    self.collides(x0, y0, rows as int),
                )
            },
            Op::SkipKeyDown { x } => self.skip_if(key_down(keys, self.reg(x))),
            Op::SkipKeyUp { x } => self.skip_if(!key_down(keys, self.reg(x))),
            Op::ReadDelay { x } => self.set_reg(x, self.delay_timer),
            Op::WaitKey { x } => State { awaiting_key: Some(x), ..self },
            Op::SetDelay { x } => State { delay_timer: self.reg(x), ..self },
            Op::SetSound { x } => State { sound_timer: self.reg(x), ..self },
            Op::AddIndex { x } => State {
                index: ((self.index + self.reg(x)) % 65536) as u16,
                ..self
            },
            Op::Glyph { x } => State { index: ((self.reg(x) % 16) * GLYPH_STRIDE) as u16, ..self },
            Op::Bcd { x } => {
                let v = self.reg(x);
                let i = self.index as int;
                State {
                    memory: self.memory.update(i, v / 100).update(i + 1, (v / 10) % 10).update(
                        i + 2,
                        v % 10,
                    ),
                    ..self
                }
            },
            Op::Store { x } => {
                let i = self.index as int;
                State {
                    memory: Seq::new(
                        MEMORY_SIZE as nat,
                        |a: int|
                            if i <= a <= i + x {
                                self.registers[a - i]
                            } else {
                                self.memory[a]
                            },
                    ),
                    ..self
                }
            },
            Op::Load { x } => {
                let i = self.index as int;
                State {
                    registers: Seq::new(
                        REGISTERS as nat,
                        |r: int|
                            if r <= x {
                                self.memory[i + r]
                            } else {
                                self.registers[r]
                            },
                    ),
                    ..self
                }
            },
        }
    }

    /// The fault that executing the instruction word `word` at the program
    /// counter runs into, if any: the word does not lie within memory, it
    /// stands for no operation, or its operation cannot be carried out.
    pub open spec fn fault(self, word: u16) -> Option<Fault> {
        if self.pc + 1 >= MEMORY_SIZE {
            Some(Fault::OutOfRange)
        } else {
            match decode_spec(word) {
                None => Some(Fault::UnknownOpcode(word)),
                Some(op) => self.op_fault(op),
            }
        }
    }

    /// The state after executing the instruction word `word`, where `fault`
    /// is `None`: the program counter moves behind the instruction first,
    /// then the operation is carried out.
    pub open spec fn exec(self, word: u16, keys: u16, rnd: u8) -> State {
        State { pc: (self.pc + 2) as u16, ..self }.apply(decode_spec(word).unwrap(), keys, rnd)
    }

    /// The fault that stops the machine where it stands, if any: one of
    /// fetching or executing the instruction at the program counter. A
    /// machine that waits for a key is not stopped.
    pub open spec fn halted(self) -> Option<Fault> {
        if self.paused() {
            None
        } else {
            self.fault(self.word_at_pc())
        }
    }

    /// The outcome of the dispatch slots `slot..slots` of a tick, each drawing
    /// its random byte from `random`: the state they leave, and the fault
    /// that stopped them, if any. Nothing is dispatched once the machine
    /// waits for a key, and a fault leaves the state as it was before the
    /// faulty instruction.
    pub open spec fn run(self, keys: u16, random: Seq<u8>, slot: int, slots: int) -> (
        State,
        Option<Fault>,
    )
        decreases slots - slot,
    {
        if slot >= slots || self.paused() {
            (self, None)
        } else if self.halted() is Some {
            (self, self.halted())
        } else {
            self.exec(self.word_at_pc(), keys, random_at(random, slot)).run(
                keys,
                random,
                slot + 1,
                slots,
            )
        }
    }

    /// The state with both timers counted down by one, not below zero.
    pub open spec fn timers_ticked(self) -> State {
        State {
            delay_timer: if self.delay_timer > 0 {
                (self.delay_timer - 1) as u8
            } else {
                0
            },
            sound_timer: if self.sound_timer > 0 {
                (self.sound_timer - 1) as u8
            } else {
                0
            },
            ..self
        }
    }

    /// The state after the host supplied the key `key`: the waiting register
    /// takes its code and dispatch resumes; a machine that does not wait is
    /// left alone.
    pub open spec fn key_supplied(self, key: u8) -> State {
        match self.awaiting_key {
            Some(x) => State { awaiting_key: None, ..self.set_reg(x, key) },
            None => self,
        }
    }

    /// The tone that the host is to sound in this state.
    pub open spec fn audio(self) -> Audio {
        if self.sound_timer > 0 {
            Audio::Play { frequency: TONE_HZ }
        } else {
            Audio::Stop
        }
    }

    /// The outcome of a tick: `speed` dispatch slots, then, unless a fault
    /// stopped them or the machine waits for a key, the timers.
    pub open spec fn tick(self, keys: u16, random: Seq<u8>) -> (State, Option<Fault>) {
        let (after, fault) = self.run(keys, random, 0, self.speed as int);
        if fault is Some || after.paused() {
            (after, fault)
        } else {
            (after.timers_ticked(), None)
        }
    }

    /// Which cell a sprite bit falls on: the bit in column `col` of line
    /// `row` lands on cell `p` exactly if `p` lies `col` columns to the right
    /// of and `row` rows below the corner, going round the display.
    pub proof fn sprite_bit_cell(x0: int, y0: int, row: int, col: int, p: int)
        requires
            0 <= row < ROWS,
            0 <= col < COLS,
            0 <= p < CELLS,
        ensures
            0 <= cell_index(x0 + col, y0 + row) < CELLS,
            p == cell_index(x0 + col, y0 + row) <==> (p % 64 - x0) % 64 == col && (p / 64 - y0) % 32
                == row,
    {
    }

    /// Drawing one more bit of a sprite line inverts the cell under it if
    /// the bit is lit, and changes nothing else; that cell was not touched
    /// by the bits before it.
    pub proof fn drawn_next(self, x0: int, y0: int, row: int, col: int)
        requires
            self.wf(),
            0 <= row < ROWS,
            0 <= col < 8,
        ensures
            ({
                let q = cell_index(x0 + col, y0 + row);
                let lit = sprite_bit(self.memory[self.index + row], col as u8);
                let before = self.drawn_before(x0, y0, row, col);
                &&& 0 <= q < CELLS
                &&& before[q] == self.display[q]
                &&& self.drawn_before(x0, y0, row, col + 1) == if lit {
                    toggled(before, x0 + col, y0 + row)
                } else {
                    before
                }
                &&& self.collides_before(x0, y0, row, col + 1) == (self.collides_before(
                    x0,
                    y0,
                    row,
                    col,
                ) || (lit && self.display[q] == 1))
            }),
    {
        let q = cell_index(x0 + col, y0 + row);
        let lit = sprite_bit(self.memory[self.index + row], col as u8);
        let before = self.drawn_before(x0, y0, row, col);
        let after = self.drawn_before(x0, y0, row, col + 1);
        assert forall|p: int| 0 <= p < CELLS implies self.lit_before(x0, y0, row, col + 1, p) == (
        self.lit_before(x0, y0, row, col, p) || (p == q && lit)) by {
            Self::sprite_bit_cell(x0, y0, row, col, p);
        }
        Self::sprite_bit_cell(x0, y0, row, col, q);
        assert(after =~= if lit {
            toggled(before, x0 + col, y0 + row)
        } else {
            before
        });
        if self.collides_before(x0, y0, row, col + 1) {
            let p = choose|p: int|
                0 <= p < CELLS && self.lit_before(x0, y0, row, col + 1, p) && self.display[p] == 1;
            assert(self.lit_before(x0, y0, row, col, p) || (p == q && lit));
        }
        if self.collides_before(x0, y0, row, col) {
            let p = choose|p: int|
                0 <= p < CELLS && self.lit_before(x0, y0, row, col, p) && self.display[p] == 1;
            assert(self.lit_before(x0, y0, row, col + 1, p));
        }
        if lit && self.display[q] == 1 {
            assert(self.lit_before(x0, y0, row, col + 1, q));
        }
    }

    /// The part of a sprite before its line `rows` is the whole sprite.
    pub proof fn drawn_whole(self, x0: int, y0: int, rows: int)
        ensures
            self.drawn_before(x0, y0, rows, 0) == self.drawn(x0, y0, rows),
            self.collides_before(x0, y0, rows, 0) == self.collides(x0, y0, rows),
    {
        assert forall|p: int| 0 <= p < CELLS implies self.lit_before(x0, y0, rows, 0, p)
            == self.lit(x0, y0, rows, p) by {}
        assert(self.drawn_before(x0, y0, rows, 0) =~= self.drawn(x0, y0, rows));
        if self.collides_before(x0, y0, rows, 0) {
            let p = choose|p: int|
                0 <= p < CELLS && self.lit_before(x0, y0, rows, 0, p) && self.display[p] == 1;
            assert(self.lit(x0, y0, rows, p));
        }
        if self.collides(x0, y0, rows) {
            let p = choose|p: int|
                0 <= p < CELLS && self.lit(x0, y0, rows, p) && self.display[p] == 1;
            assert(self.lit_before(x0, y0, rows, 0, p));
        }
    }

    /// A sprite line ends after its eighth bit.
    pub proof fn drawn_next_row(self, x0: int, y0: int, row: int)
        ensures
            self.drawn_before(x0, y0, row, 8) == self.drawn_before(x0, y0, row + 1, 0),
            self.collides_before(x0, y0, row, 8) == self.collides_before(x0, y0, row + 1, 0),
    {
        assert forall|p: int| 0 <= p < CELLS implies self.lit_before(x0, y0, row, 8, p)
            == self.lit_before(x0, y0, row + 1, 0, p) by {}
        assert(self.drawn_before(x0, y0, row, 8) =~= self.drawn_before(x0, y0, row + 1, 0));
        if self.collides_before(x0, y0, row, 8) {
            let p = choose|p: int|
                0 <= p < CELLS && self.lit_before(x0, y0, row, 8, p) && self.display[p] == 1;
            assert(self.lit_before(x0, y0, row + 1, 0, p));
        }
        if self.collides_before(x0, y0, row + 1, 0) {
            let p = choose|p: int|
                0 <= p < CELLS && self.lit_before(x0, y0, row + 1, 0, p) && self.display[p] == 1;
            assert(self.lit_before(x0, y0, row, 8, p));
        }
    }
}

} // verus!
