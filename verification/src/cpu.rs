//! The machine itself: the state it owns and the operations that the host
//! drives it with.

use vstd::prelude::*;
use crate::fault::Fault;
use crate::font::{font, FONT, FONT_SIZE};
use crate::op::{decode, Op};
use crate::state::{
    cell_index, cell_index_wraps, key_down, toggled, Audio, State, CELLS, COLS, DEFAULT_SPEED,
    FLAG, GLYPH_STRIDE, MEMORY_SIZE, PROGRAM_START, REGISTERS, ROWS, TONE_HZ,
};

verus! {

/// The sum of two bytes modulo 256, and whether it went beyond 255.
pub fn add_with_carry(a: u8, b: u8) -> (r: (u8, bool))
    ensures
        r.0 == (a + b) % 256,
        r.1 == (a + b > 255),
{
    (a.wrapping_add(b), a as u16 + b as u16 > 255)
}

/// The difference of two bytes modulo 256, and whether the first was the
/// smaller one.
pub fn sub_with_borrow(a: u8, b: u8) -> (r: (u8, bool))
    ensures
        r.0 == (a - b) % 256,
        r.1 == (a < b),
{
    (a.wrapping_sub(b), a < b)
}

/// A byte shifted right by one bit, and whether bit 0 was set.
pub fn shift_right(a: u8) -> (r: (u8, bool))
    ensures
        r.0 == a / 2,
        r.1 == (a % 2 == 1),
{
    assert(a >> 1 == a / 2) by (bit_vector);
    assert((a & 1 == 1) == (a % 2 == 1)) by (bit_vector);
    (a >> 1, a & 1 == 1)
}

/// A byte shifted left by one bit, modulo 256, and whether bit 7 was set.
pub fn shift_left(a: u8) -> (r: (u8, bool))
    ensures
        r.0 == (a * 2) % 256,
        r.1 == (a >= 128),
{
    assert(a << 1 == (a * 2) % 256) by (bit_vector);
    assert((a & 0x80 != 0) == (a >= 128)) by (bit_vector);
    (a << 1, a & 0x80 != 0)
}

/// Whether key `key` is held according to the key mask `keys`.
pub fn is_key_down(keys: u16, key: u8) -> (held: bool)
    ensures
        held == key_down(keys, key),
{
    key < 16 && keys & (1u16 << key) != 0
}

/// A CHIP-8 machine.
#[derive(Debug, Clone)]
pub struct CPU {
    memory: Vec<u8>,
    registers: Vec<u8>,
    display: Vec<u8>,
    i: u16,
    delay_timer: u8,
    sound_timer: u8,
    pc: u16,
    stack: Vec<u16>,
    awaiting_key: Option<u8>,
    speed: usize,
}

impl View for CPU {
    type V = State;

    closed spec fn view(&self) -> State {
        State {
            memory: self.memory@,
            registers: self.registers@,
            display: self.display@,
            index: self.i,
            delay_timer: self.delay_timer,
            sound_timer: self.sound_timer,
            pc: self.pc,
            stack: self.stack@,
            awaiting_key: self.awaiting_key,
            speed: self.speed,
        }
    }
}

impl CPU {
    /// The invariant of the machine, which every operation keeps.
    pub open spec fn wf(&self) -> bool {
        self@.wf()
    }

    /// Builds a machine around the program image `rom`: the font is loaded
    /// first, then the image at the load address. An image that does not fit
    /// is refused.
    pub fn new(rom: &[u8]) -> (made: Result<CPU, Fault>)
        ensures
            match made {
                Ok(cpu) => {
                    &&& rom@.len() + PROGRAM_START <= MEMORY_SIZE
                    &&& cpu.wf()
                    &&& cpu@ == State::boot(rom@)
                },
                Err(fault) => {
                    &&& rom@.len() + PROGRAM_START > MEMORY_SIZE
                    &&& fault == Fault::ProgramTooLarge
                },
            },
    {
        let mut cpu = CPU {
            memory: vec![0u8; MEMORY_SIZE],
            registers: vec![0u8; REGISTERS],
            display: vec![0u8; CELLS],
            i: 0,
            delay_timer: 0,
            sound_timer: 0,
            pc: PROGRAM_START,
            stack: Vec::new(),
            awaiting_key: None,
            speed: DEFAULT_SPEED,
        };
        cpu.load_sprites();
        match cpu.load_rom(rom) {
            Ok(()) => {
                assert(cpu@ =~= State::boot(rom@));
                Ok(cpu)
            },
            Err(fault) => Err(fault),
        }
    }

    /// Writes the font to the bottom of memory.
    pub fn load_sprites(&mut self)
        requires
            old(self).wf(),
        ensures
            final(self).wf(),
            final(self)@ == (State {
                memory: font() + old(self)@.memory.subrange(FONT_SIZE as int, MEMORY_SIZE as int),
                ..old(self)@
            }),
    {
        let mut a: usize = 0;
        while a < FONT_SIZE
            invariant
                a <= FONT_SIZE,
                old(self).wf(),
                self.wf(),
                self@ == (State {
                    memory: font().take(a as int) + old(self)@.memory.skip(a as int),
                    ..old(self)@
                }),
            decreases FONT_SIZE - a,
        {
            self.memory.set(a, FONT[a]);
            a = a + 1;
            assert(self@.memory =~= font().take(a as int) + old(self)@.memory.skip(a as int));
        }
        assert(self@.memory =~= font() + old(self)@.memory.subrange(
            FONT_SIZE as int,
            MEMORY_SIZE as int,
        ));
    }

    /// Copies the program image `rom` to the load address. An image that
    /// reaches beyond the end of memory is refused, and nothing is written.
    pub fn load_rom(&mut self, rom: &[u8]) -> (loaded: Result<(), Fault>)
        requires
            old(self).wf(),
        ensures
            final(self).wf(),
            match loaded {
                Ok(()) => {
                    &&& rom@.len() + PROGRAM_START <= MEMORY_SIZE
                    &&& final(self)@ == (State {
                        memory: old(self)@.memory.take(PROGRAM_START as int) + rom@
                            + old(self)@.memory.skip(PROGRAM_START + rom@.len()),
                        ..old(self)@
                    })
                },
                Err(fault) => {
                    &&& rom@.len() + PROGRAM_START > MEMORY_SIZE
                    &&& fault == Fault::ProgramTooLarge
                    &&& final(self)@ == old(self)@
                },
            },
    {
        let start: usize = PROGRAM_START as usize;
        if rom.len() > MEMORY_SIZE - start {
            return Err(Fault::ProgramTooLarge);
        }
        let mut k: usize = 0;
        while k < rom.len()
            invariant
                k <= rom@.len(),
                start == PROGRAM_START,
                rom@.len() + PROGRAM_START <= MEMORY_SIZE,
                old(self).wf(),
                self.wf(),
                self@ == (State {
                    memory: old(self)@.memory.take(PROGRAM_START as int) + rom@.take(k as int)
                        + old(self)@.memory.skip(PROGRAM_START + k),
                    ..old(self)@
                }),
            decreases rom@.len() - k,
        {
            self.memory.set(start + k, rom[k]);
            k = k + 1;
            assert(self@.memory =~= old(self)@.memory.take(PROGRAM_START as int) + rom@.take(
                k as int,
            ) + old(self)@.memory.skip(PROGRAM_START + k));
        }
        assert(rom@.take(k as int) =~= rom@);
        Ok(())
    }

    /// The display cells, row by row: 2048 values, each 0 or 1.
    pub fn display(&self) -> (cells: &[u8])
        ensures
            cells@ == self@.display,
    {
        self.display.as_slice()
    }

    /// Inverts the cell of `(x, y)`, both coordinates wrapping around, and
    /// says whether that put it out.
    pub fn set_pixel(&mut self, x: u8, y: u8) -> (erased: bool)
        requires
            old(self).wf(),
        ensures
            final(self).wf(),
            final(self)@ == (State {
                display: toggled(old(self)@.display, x as int, y as int),
                ..old(self)@
            }),
            erased == (old(self)@.display[cell_index(x as int, y as int)] == 1),
    {
        let loc: usize = (x as usize % COLS) + (y as usize % ROWS) * COLS;
        let lit: u8 = self.display[loc];
        assert(lit <= 1 ==> lit ^ 1 == 1 - lit) by (bit_vector);
        self.display.set(loc, lit ^ 1);
        lit == 1
    }

    /// Puts out every cell of the display.
    pub fn clear_screen(&mut self)
        requires
            old(self).wf(),
        ensures
            final(self).wf(),
            final(self)@ == (State {
                display: Seq::new(CELLS as nat, |p: int| 0u8),
                ..old(self)@
            }),
    {
        self.display = vec![0u8; CELLS];
        assert(self.display@ =~= Seq::new(CELLS as nat, |p: int| 0u8));
    }

    /// Counts both timers down by one, not below zero.
    pub fn update_timers(&mut self)
        requires
            old(self).wf(),
        ensures
            final(self).wf(),
            final(self)@ == old(self)@.timers_ticked(),
    {
        if self.delay_timer > 0 {
            self.delay_timer -= 1;
        }
        if self.sound_timer > 0 {
            self.sound_timer -= 1;
        }
    }

    /// What the host is to do with its tone generator: sound the tone while
    /// the sound timer runs, else be silent.
    pub fn play_sound(&self) -> (audio: Audio)
        ensures
            audio == self@.audio(),
    {
        if self.sound_timer > 0 {
            Audio::Play { frequency: TONE_HZ }
        } else {
            Audio::Stop
        }
    }

    /// Runs one tick: `speed` dispatch slots, then the timers, then the
    /// decision on the tone, which is returned for the host to carry out.
    ///
    /// `keys` has bit `k` set while key `k` is held. The instruction of slot
    /// `n` draws the random byte `random[n]`, and 0 beyond the end of
    /// `random`. While the machine waits for a key nothing is dispatched and
    /// the timers stand still. A fault ends the tick at once and leaves the
    /// machine as it was before the faulty instruction.
    pub fn cycle(&mut self, keys: u16, random: &[u8]) -> (done: Result<Audio, Fault>)
        requires
            old(self).wf(),
        ensures
            final(self).wf(),
            final(self)@ == old(self)@.tick(keys, random@).0,
            match done {
                Ok(audio) => {
                    &&& old(self)@.tick(keys, random@).1 is None
                    &&& audio == final(self)@.audio()
                },
                Err(fault) => old(self)@.tick(keys, random@).1 == Some(fault),
            },
    {
        let speed = self.speed;
        let mut slot: usize = 0;
        while slot < speed
            invariant
                slot <= speed,
                speed == old(self)@.speed,
                speed == self@.speed,
                self.wf(),
                old(self)@.run(keys, random@, 0, speed as int) == self@.run(
                    keys,
                    random@,
                    slot as int,
                    speed as int,
                ),
            decreases speed - slot,
        {
            if self.awaiting_key.is_none() {
                let rnd: u8 = if slot < random.len() {
                    random[slot]
                } else {
                    0
                };
                let word = match self.fetch() {
                    Ok(word) => word,
                    Err(fault) => {
                        return Err(fault);
                    },
                };
                if let Err(fault) = self.exec_instr(word, keys, rnd) {
                    return Err(fault);
                }
            }
            slot = slot + 1;
        }
        if self.awaiting_key.is_none() {
            self.update_timers();
        }
        Ok(self.play_sound())
    }

    /// Hands the machine the key it waits for: the waiting register takes
    /// the key's code and dispatch resumes. Says whether the machine was
    /// waiting; if it was not, nothing changes.
    pub fn supply_key(&mut self, key: u8) -> (resumed: bool)
        requires
            old(self).wf(),
        ensures
            final(self).wf(),
            final(self)@ == old(self)@.key_supplied(key),
            resumed == old(self)@.paused(),
    {
        match self.awaiting_key {
            Some(x) => {
                self.registers.set(x as usize, key);
                self.awaiting_key = None;
                true
            },
            None => false,
        }
    }

    /// The registers `V0..VF`.
    pub fn registers(&self) -> (values: &[u8])
        ensures
            values@ == self@.registers,
    {
        self.registers.as_slice()
    }

    /// The 4096 bytes of memory.
    pub fn memory(&self) -> (bytes: &[u8])
        ensures
            bytes@ == self@.memory,
    {
        self.memory.as_slice()
    }

    /// The return addresses, innermost call last.
    pub fn stack(&self) -> (addresses: &[u16])
        ensures
            addresses@ == self@.stack,
    {
        self.stack.as_slice()
    }

    /// The program counter.
    pub fn pc(&self) -> (pc: u16)
        ensures
            pc == self@.pc,
    {
        self.pc
    }

    /// The index register.
    pub fn index(&self) -> (index: u16)
        ensures
            index == self@.index,
    {
        self.i
    }

    /// The delay timer.
    pub fn delay_timer(&self) -> (timer: u8)
        ensures
            timer == self@.delay_timer,
    {
        self.delay_timer
    }

    /// The sound timer.
    pub fn sound_timer(&self) -> (timer: u8)
        ensures
            timer == self@.sound_timer,
    {
        self.sound_timer
    }

    /// Whether the machine waits for a key.
    pub fn paused(&self) -> (paused: bool)
        ensures
            paused == self@.paused(),
    {
        self.awaiting_key.is_some()
    }

    /// Instructions dispatched per tick.
    pub fn speed(&self) -> (speed: usize)
        ensures
            speed == self@.speed,
    {
        self.speed
    }

    /// The instruction word at the program counter, high byte first.
    fn fetch(&self) -> (fetched: Result<u16, Fault>)
        requires
            self.wf(),
        ensures
            match fetched {
                Ok(word) => self@.pc + 1 < MEMORY_SIZE && word == self@.word_at_pc(),
                Err(fault) => self@.pc + 1 >= MEMORY_SIZE && fault == Fault::OutOfRange,
            },
    {
        let pc: usize = self.pc as usize;
        if pc + 1 >= MEMORY_SIZE {
            return Err(Fault::OutOfRange);
        }
        let high: u16 = self.memory[pc] as u16;
        let low: u16 = self.memory[pc + 1] as u16;
        assert(high < 256 && low < 256 ==> (high << 8) | low == high * 256 + low) by (bit_vector);
        Ok((high << 8) | low)
    }

    /// Sets register `x`.
    fn set_reg(&mut self, x: u8, value: u8)
        requires
            old(self).wf(),
            x < 16,
        ensures
            final(self).wf(),
            final(self)@ == old(self)@.set_reg(x, value),
    {
        self.registers.set(x as usize, value);
    }

    /// Sets the flag register to 1 or 0.
    fn set_flag(&mut self, on: bool)
        requires
            old(self).wf(),
        ensures
            final(self).wf(),
            final(self)@ == old(self)@.set_flag(on),
    {
        self.registers.set(FLAG, if on { 1 } else { 0 });
    }

    /// Moves the program counter past one more instruction if `cond` holds.
    fn skip_if(&mut self, cond: bool)
        requires
            old(self).wf(),
            old(self)@.pc <= MEMORY_SIZE,
        ensures
            final(self).wf(),
            final(self)@ == old(self)@.skip_if(cond),
    {
        if cond {
            self.pc = self.pc + 2;
        }
    }

    /// The fault that operation `op` would run into, if any.
    fn op_fault(&self, op: Op) -> (fault: Option<Fault>)
        requires
            self.wf(),
        ensures
            fault == self@.op_fault(op),
    {
        let index: usize = self.i as usize;
        match op {
            Op::Return => if self.stack.len() == 0 {
                Some(Fault::StackUnderflow)
            } else {
                None
            },
            Op::Draw { rows, .. } => if index + rows as usize > MEMORY_SIZE {
                Some(Fault::OutOfRange)
            } else {
                None
            },
            Op::Bcd { .. } => if index + 2 >= MEMORY_SIZE {
                Some(Fault::OutOfRange)
            } else {
                None
            },
            Op::Store { x } | Op::Load { x } => if index + x as usize >= MEMORY_SIZE {
                Some(Fault::OutOfRange)
            } else {
                None
            },
            _ => None,
        }
    }

    /// Executes the instruction word `instr` as the instruction at the
    /// program counter: the program counter moves behind it, then its
    /// operation is carried out. `keys` has bit `k` set while key `k` is
    /// held; `rnd` is the random byte for this instruction.
    ///
    /// A fault leaves the machine as it was.
    pub fn exec_instr(&mut self, instr: u16, keys: u16, rnd: u8) -> (done: Result<(), Fault>)
        requires
            old(self).wf(),
        ensures
            final(self).wf(),
            match done {
                Ok(()) => {
                    &&& old(self)@.fault(instr) is None
                    &&& final(self)@ == old(self)@.exec(instr, keys, rnd)
                },
                Err(fault) => {
                    &&& old(self)@.fault(instr) == Some(fault)
                    &&& final(self)@ == old(self)@
                },
            },
    {
        if self.pc as usize + 1 >= MEMORY_SIZE {
            return Err(Fault::OutOfRange);
        }
        let op = match decode(instr) {
            Some(op) => op,
            None => {
                return Err(Fault::UnknownOpcode(instr));
            },
        };
        if let Some(fault) = self.op_fault(op) {
            return Err(fault);
        }
        self.pc = self.pc + 2;
        self.apply(op, keys, rnd);
        Ok(())
    }

    /// Carries out operation `op`; the program counter already points behind
    /// the instruction.
    fn apply(&mut self, op: Op, keys: u16, rnd: u8)
        requires
            old(self).wf(),
            op.wf(),
            old(self)@.op_fault(op) is None,
            old(self)@.pc <= MEMORY_SIZE,
        ensures
            final(self).wf(),
            final(self)@ == old(self)@.apply(op, keys, rnd),
    {
        match op {
            Op::Return
            | Op::Jump { .. }
            | Op::Call { .. }
            | Op::JumpOffset { .. }
            | Op::SkipEqImm { .. }
            | Op::SkipNeImm { .. }
            | Op::SkipEqReg { .. }
            | Op::SkipNeReg { .. }
            | Op::SkipKeyDown { .. }
            | Op::SkipKeyUp { .. } => self.branch(op, keys),
            Op::LoadImm { .. }
            | Op::AddImm { .. }
            | Op::Random { .. }
            | Op::Move { .. }
            | Op::Or { .. }
            | Op::And { .. }
            | Op::Xor { .. }
            | Op::AddCarry { .. }
            | Op::SubBorrow { .. }
            | Op::SubReverse { .. }
            | Op::ShiftRight { .. }
            | Op::ShiftLeft { .. } => self.alu(op, rnd),
            Op::ClearScreen => self.clear_screen(),
            Op::Draw { x, y, rows } => self.draw(x, y, rows),
            Op::Bcd { x } => self.store_digits(x),
            Op::Store { x } => self.store_registers(x),
            Op::Load { x } => self.load_registers(x),
            Op::LoadIndex { .. }
            | Op::AddIndex { .. }
            | Op::Glyph { .. }
            | Op::ReadDelay { .. }
            | Op::SetDelay { .. }
            | Op::SetSound { .. }
            | Op::WaitKey { .. } => self.system(op),
        }
    }

    /// Carries out an operation on the index register, on a timer, or the
    /// wait for a key.
    fn system(&mut self, op: Op)
        requires
            old(self).wf(),
            op.wf(),
            op is LoadIndex || op is AddIndex || op is Glyph || op is ReadDelay || op is SetDelay
                || op is SetSound || op is WaitKey,
        ensures
            final(self).wf(),
            final(self)@ == old(self)@.apply(op, 0, 0),
    {
        match op {
            Op::LoadIndex { addr } => {
                self.i = addr;
            },
            Op::AddIndex { x } => {
                self.i = self.i.wrapping_add(self.registers[x as usize] as u16);
            },
            Op::Glyph { x } => {
                self.i = (self.registers[x as usize] % 16) as u16 * GLYPH_STRIDE;
            },
            Op::ReadDelay { x } => {
                let timer = self.delay_timer;
                self.set_reg(x, timer)
            },
            Op::SetDelay { x } => {
                self.delay_timer = self.registers[x as usize];
            },
            Op::SetSound { x } => {
                self.sound_timer = self.registers[x as usize];
            },
            Op::WaitKey { x } => {
                self.awaiting_key = Some(x);
            },
            _ => {},
        }
    }

    /// Carries out an operation that only moves the program counter: a
    /// jump, a call, a return or a conditional skip.
    fn branch(&mut self, op: Op, keys: u16)
        requires
            old(self).wf(),
            op.wf(),
            op is Return || op is Jump || op is Call || op is JumpOffset || op is SkipEqImm
                || op is SkipNeImm || op is SkipEqReg || op is SkipNeReg || op is SkipKeyDown
                || op is SkipKeyUp,
            old(self)@.op_fault(op) is None,
            old(self)@.pc <= MEMORY_SIZE,
        ensures
            final(self).wf(),
            final(self)@ == old(self)@.apply(op, keys, 0),
    {
        match op {
            Op::Return => {
                let top = self.stack.pop();
                self.pc = top.unwrap();
            },
            Op::Jump { addr } => {
                self.pc = addr;
            },
            Op::Call { addr } => {
                self.stack.push(self.pc);
                self.pc = addr;
            },
            Op::JumpOffset { addr } => {
                self.pc = addr + self.registers[0] as u16;
            },
            Op::SkipEqImm { x, byte } => {
                let vx = self.registers[x as usize];
                self.skip_if(vx == byte)
            },
            Op::SkipNeImm { x, byte } => {
                let vx = self.registers[x as usize];
                self.skip_if(vx != byte)
            },
            Op::SkipEqReg { x, y } => {
                let vx = self.registers[x as usize];
                let vy = self.registers[y as usize];
                self.skip_if(vx == vy)
            },
            Op::SkipNeReg { x, y } => {
                let vx = self.registers[x as usize];
                let vy = self.registers[y as usize];
                self.skip_if(vx != vy)
            },
            Op::SkipKeyDown { x } => {
                let held = is_key_down(keys, self.registers[x as usize]);
                self.skip_if(held)
            },
            Op::SkipKeyUp { x } => {
                let held = is_key_down(keys, self.registers[x as usize]);
                self.skip_if(!held)
            },
            _ => {},
        }
    }

    /// Carries out an operation that computes a register: a load, an
    /// addition, a random byte or one of the register-to-register family. The
    /// flag is written last, so it wins where the target is the flag register.
    fn alu(&mut self, op: Op, rnd: u8)
        requires
            old(self).wf(),
            op.wf(),
            op is LoadImm || op is AddImm || op is Random || op is Move || op is Or || op is And
                || op is Xor || op is AddCarry || op is SubBorrow || op is SubReverse
                || op is ShiftRight || op is ShiftLeft,
        ensures
            final(self).wf(),
            final(self)@ == old(self)@.apply(op, 0, rnd),
    {
        match op {
            Op::LoadImm { x, byte } => self.set_reg(x, byte),
            Op::AddImm { x, byte } => {
                let vx = self.registers[x as usize];
                self.set_reg(x, vx.wrapping_add(byte))
            },
            Op::Random { x, byte } => self.set_reg(x, rnd & byte),
            Op::Move { x, y } => {
                let vy = self.registers[y as usize];
                self.set_reg(x, vy)
            },
            Op::Or { x, y } => {
                let vx = self.registers[x as usize];
                let vy = self.registers[y as usize];
                self.set_reg(x, vx | vy)
            },
            Op::And { x, y } => {
                let vx = self.registers[x as usize];
                let vy = self.registers[y as usize];
                self.set_reg(x, vx & vy)
            },
            Op::Xor { x, y } => {
                let vx = self.registers[x as usize];
                let vy = self.registers[y as usize];
                self.set_reg(x, vx ^ vy)
            },
            Op::AddCarry { x, y } => {
                let (sum, carry) = add_with_carry(
                    self.registers[x as usize],
                    self.registers[y as usize],
                );
                self.set_reg(x, sum);
                self.set_flag(carry)
            },
            Op::SubBorrow { x, y } => {
                let (diff, borrow) = sub_with_borrow(
                    self.registers[x as usize],
                    self.registers[y as usize],
                );
                self.set_reg(x, diff);
                self.set_flag(borrow)
            },
            Op::SubReverse { x, y } => {
                let (diff, borrow) = sub_with_borrow(
                    self.registers[y as usize],
                    self.registers[x as usize],
                );
                self.set_reg(x, diff);
                self.set_flag(borrow)
            },
            Op::ShiftRight { x, .. } => {
                let (half, out) = shift_right(self.registers[x as usize]);
                self.set_reg(x, half);
                self.set_flag(out)
            },
            Op::ShiftLeft { x, .. } => {
                let (double, out) = shift_left(self.registers[x as usize]);
                self.set_reg(x, double);
                self.set_flag(out)
            },
            _ => {},
        }
    }

    /// Writes the hundreds, tens and units of register `x` to the three
    /// bytes at the index register.
    fn store_digits(&mut self, x: u8)
        requires
            old(self).wf(),
            x < 16,
            old(self)@.index + 2 < MEMORY_SIZE,
        ensures
            final(self).wf(),
            final(self)@ == old(self)@.apply(Op::Bcd { x }, 0, 0),
    {
        let value = self.registers[x as usize];
        let at: usize = self.i as usize;
        self.memory.set(at, value / 100);
        self.memory.set(at + 1, (value / 10) % 10);
        self.memory.set(at + 2, value % 10);
    }

    /// Copies the registers `V0..=Vx` to memory at the index register.
    fn store_registers(&mut self, x: u8)
        requires
            old(self).wf(),
            x < 16,
            old(self)@.index + x < MEMORY_SIZE,
        ensures
            final(self).wf(),
            final(self)@ == old(self)@.apply(Op::Store { x }, 0, 0),
    {
        let at: usize = self.i as usize;
        let mut r: usize = 0;
        while r <= x as usize
            invariant
                r <= x + 1,
                x < 16,
                at == old(self)@.index,
                at + x < MEMORY_SIZE,
                old(self).wf(),
                self.wf(),
                self@ == (State {
                    memory: Seq::new(
                        MEMORY_SIZE as nat,
                        |a: int|
                            if at <= a < at + r {
                                old(self)@.registers[a - at]
                            } else {
                                old(self)@.memory[a]
                            },
                    ),
                    ..old(self)@
                }),
            decreases x + 1 - r,
        {
            self.memory.set(at + r, self.registers[r]);
            r = r + 1;
            assert(self@.memory =~= Seq::new(
                MEMORY_SIZE as nat,
                |a: int|
                    if at <= a < at + r {
                        old(self)@.registers[a - at]
                    } else {
                        old(self)@.memory[a]
                    },
            ));
        }
        assert(self@.memory =~= old(self)@.apply(Op::Store { x }, 0, 0).memory);
    }

    /// Copies memory at the index register to the registers `V0..=Vx`.
    fn load_registers(&mut self, x: u8)
        requires
            old(self).wf(),
            x < 16,
            old(self)@.index + x < MEMORY_SIZE,
        ensures
            final(self).wf(),
            final(self)@ == old(self)@.apply(Op::Load { x }, 0, 0),
    {
        let at: usize = self.i as usize;
        let mut r: usize = 0;
        while r <= x as usize
            invariant
                r <= x + 1,
                x < 16,
                at == old(self)@.index,
                at + x < MEMORY_SIZE,
                old(self).wf(),
                self.wf(),
                self@ == (State {
                    registers: Seq::new(
                        REGISTERS as nat,
                        |k: int|
                            if k < r {
                                old(self)@.memory[at + k]
                            } else {
                                old(self)@.registers[k]
                            },
                    ),
                    ..old(self)@
                }),
            decreases x + 1 - r,
        {
            self.registers.set(r, self.memory[at + r]);
            r = r + 1;
            assert(self@.registers =~= Seq::new(
                REGISTERS as nat,
                |k: int|
                    if k < r {
                        old(self)@.memory[at + k]
                    } else {
                        old(self)@.registers[k]
                    },
            ));
        }
        assert(self@.registers =~= old(self)@.apply(Op::Load { x }, 0, 0).registers);
    }

    /// Draws the sprite of `rows` lines at the index register with its top
    /// left corner at `(Vx, Vy)`, and sets the flag if that put out a cell.
    fn draw(&mut self, x: u8, y: u8, rows: u8)
        requires
            old(self).wf(),
            x < 16,
            y < 16,
            rows < 16,
            old(self)@.index + rows <= MEMORY_SIZE,
        ensures
            final(self).wf(),
            final(self)@ == old(self)@.apply(Op::Draw { x, y, rows }, 0, 0),
    {
        let x0: u8 = self.registers[x as usize];
        let y0: u8 = self.registers[y as usize];
        let at: usize = self.i as usize;
        let mut hit = false;
        let mut row: u8 = 0;
        while row < rows
            invariant
                row <= rows,
                rows < 16,
                at == old(self)@.index,
                at + rows <= MEMORY_SIZE,
                old(self).wf(),
                self.wf(),
                self@ == (State {
                    display: old(self)@.drawn_before(x0 as int, y0 as int, row as int, 0),
                    ..old(self)@
                }),
                hit == old(self)@.collides_before(x0 as int, y0 as int, row as int, 0),
            decreases rows - row,
        {
            let line: u8 = self.memory[at + row as usize];
            let py: u8 = ((y0 as usize + row as usize) % ROWS) as u8;
            let mut col: u8 = 0;
            while col < 8
                invariant
                    col <= 8,
                    row < rows,
                    rows < 16,
                    at == old(self)@.index,
                    at + rows <= MEMORY_SIZE,
                    line == old(self)@.memory[at + row],
                    py == (y0 + row) % 32,
                    old(self).wf(),
                    self.wf(),
                    self@ == (State {
                        display: old(self)@.drawn_before(
                            x0 as int,
                            y0 as int,
                            row as int,
                            col as int,
                        ),
                        ..old(self)@
                    }),
                    hit == old(self)@.collides_before(x0 as int, y0 as int, row as int, col as int),
                decreases 8 - col,
            {
                if line & (0x80u8 >> col) != 0 {
                    let px: u8 = ((x0 as usize + col as usize) % COLS) as u8;
                    proof {
                        cell_index_wraps(x0 + col, y0 + row);
                    }
                    if self.set_pixel(px, py) {
                        hit = true;
                    }
                }
                proof {
                    old(self)@.drawn_next(x0 as int, y0 as int, row as int, col as int);
                }
                col = col + 1;
            }
            proof {
                old(self)@.drawn_next_row(x0 as int, y0 as int, row as int);
            }
            row = row + 1;
        }
        proof {
            old(self)@.drawn_whole(x0 as int, y0 as int, rows as int);
        }
        self.set_flag(hit);
    }
}

} // verus!
