//! Properties of the instruction set, proved of the model that the machine's
//! contracts are stated in.

use vstd::prelude::*;
use crate::op::{
    word_of, word_of_digits, word_with_addr, word_with_addr_digits, word_with_byte,
    word_with_byte_digits,
};
use crate::state::{cell_index, key_down, toggled, State, CELLS, MEMORY_SIZE};

verus! {

/// Add-with-carry (`8xy4`) sets the flag to 1 exactly if the sum of the two
/// registers exceeds 255, else to 0, and leaves the sum modulo 256 in `Vx`,
/// unless `Vx` is the flag register itself, where the flag wins.
pub proof fn add_with_carry_sets_flag_and_sum(s: State, x: u8, y: u8, keys: u16, rnd: u8)
    requires
        s.wf(),
        s.pc + 1 < MEMORY_SIZE,
        x < 16,
        y < 16,
    ensures
        ({
            let word = word_of(8, x, y, 4);
            let sum = s.reg(x) + s.reg(y);
            let after = s.exec(word, keys, rnd);
            &&& s.fault(word) is None
            &&& after.reg(15) == if sum > 255 { 1int } else { 0int }
            &&& x != 15 ==> after.reg(x) == sum % 256
        }),
{
    word_of_digits(8, x, y, 4);
}

/// Subtract-with-borrow (`8xy5`) sets the flag to 1 exactly if `Vx` is less
/// than `Vy`, else to 0, and leaves the difference modulo 256 in `Vx`,
/// unless `Vx` is the flag register itself, where the flag wins.
pub proof fn sub_with_borrow_sets_flag_and_difference(s: State, x: u8, y: u8, keys: u16, rnd: u8)
    requires
        s.wf(),
        s.pc + 1 < MEMORY_SIZE,
        x < 16,
        y < 16,
    ensures
        ({
            let word = word_of(8, x, y, 5);
            let after = s.exec(word, keys, rnd);
            &&& s.fault(word) is None
            &&& after.reg(15) == if s.reg(x) < s.reg(y) { 1int } else { 0int }
            &&& x != 15 ==> after.reg(x) == (s.reg(x) - s.reg(y)) % 256
        }),
{
    word_of_digits(8, x, y, 5);
}

/// The reverse subtraction (`8xy7`) sets the flag to 1 exactly if `Vy` is
/// less than `Vx`, else to 0, and leaves `Vy - Vx` modulo 256 in `Vx`,
/// unless `Vx` is the flag register itself, where the flag wins.
pub proof fn sub_reverse_sets_flag_and_difference(s: State, x: u8, y: u8, keys: u16, rnd: u8)
    requires
        s.wf(),
        s.pc + 1 < MEMORY_SIZE,
        x < 16,
        y < 16,
    ensures
        ({
            let word = word_of(8, x, y, 7);
            let after = s.exec(word, keys, rnd);
            &&& s.fault(word) is None
            &&& after.reg(15) == if s.reg(y) < s.reg(x) { 1int } else { 0int }
            &&& x != 15 ==> after.reg(x) == (s.reg(y) - s.reg(x)) % 256
        }),
{
    word_of_digits(8, x, y, 7);
}

/// Inverting the same cell twice gives the display back, whatever the
/// coordinate.
pub proof fn toggle_twice_restores(display: Seq<u8>, x: int, y: int)
    requires
        display.len() == CELLS,
        forall|p: int| 0 <= p < CELLS ==> #[trigger] display[p] <= 1,
    ensures
        toggled(toggled(display, x, y), x, y) == display,
        toggled(display, x, y)[cell_index(x, y)] != display[cell_index(x, y)],
{
    assert(0 <= cell_index(x, y) < CELLS);
    assert(toggled(toggled(display, x, y), x, y) =~= display);
}

/// Drawing the same sprite twice at the same place (`Dxyn` twice) gives the
/// display back, provided neither coordinate register is the flag
/// register, which the first drawing overwrites.
pub proof fn draw_twice_restores(s: State, x: u8, y: u8, rows: u8, keys: u16, rnd: u8)
    requires
        s.wf(),
        s.pc + 3 < MEMORY_SIZE,
        s.index + rows <= MEMORY_SIZE,
        x < 15,
        y < 15,
        rows < 16,
    ensures
        ({
            let word = word_of(0xd, x, y, rows);
            let once = s.exec(word, keys, rnd);
            let twice = once.exec(word, keys, rnd);
            &&& s.fault(word) is None
            &&& once.fault(word) is None
            &&& twice.display == s.display
        }),
{
    word_of_digits(0xd, x, y, rows);
    let word = word_of(0xd, x, y, rows);
    let once = s.exec(word, keys, rnd);
    let twice = once.exec(word, keys, rnd);
    assert(once.reg(x) == s.reg(x) && once.reg(y) == s.reg(y));
    assert(twice.display =~= s.display);
}

/// Clearing the screen (`00E0`) leaves every cell at 0, whatever the display
/// held, and touches nothing else but the program counter.
pub proof fn clear_screen_blanks_display(s: State, keys: u16, rnd: u8)
    requires
        s.wf(),
        s.pc + 1 < MEMORY_SIZE,
    ensures
        ({
            let after = s.exec(0x00e0, keys, rnd);
            &&& s.fault(0x00e0) is None
            &&& after.display.len() == CELLS
            &&& forall|p: int| 0 <= p < CELLS ==> #[trigger] after.display[p] == 0
            &&& after == (State { display: after.display, pc: (s.pc + 2) as u16, ..s })
        }),
{
}

/// A call (`2nnn`) followed at once by a return (`00EE`) leaves the program
/// counter on the instruction after the call, and the machine otherwise as
/// it was. The return must itself lie within memory, so the call does not
/// go to the last byte.
pub proof fn call_then_return_resumes_after_call(s: State, addr: u16, keys: u16, rnd: u8)
    requires
        s.wf(),
        s.pc + 1 < MEMORY_SIZE,
        addr + 1 < MEMORY_SIZE,
    ensures
        ({
            let call = word_with_addr(2, addr);
            let called = s.exec(call, keys, rnd);
            let returned = called.exec(0x00ee, keys, rnd);
            &&& s.fault(call) is None
            &&& called.pc == addr
            &&& called.fault(0x00ee) is None
            &&& returned == (State { pc: (s.pc + 2) as u16, ..s })
        }),
{
    word_with_addr_digits(2, addr);
    let call = word_with_addr(2, addr);
    let called = s.exec(call, keys, rnd);
    let returned = called.exec(0x00ee, keys, rnd);
    assert(called.stack == s.stack.push((s.pc + 2) as u16));
    assert(returned.stack =~= s.stack);
}

/// The six skip instructions (`3xkk`, `4xkk`, `5xy0`, `9xy0`, `Ex9E`,
/// `ExA1`) move the program counter by 4 where their condition holds and by
/// 2 where it does not, and touch nothing else.
pub proof fn skips_advance_by_four_or_two(s: State, x: u8, y: u8, byte: u8, keys: u16, rnd: u8)
    requires
        s.wf(),
        s.pc + 1 < MEMORY_SIZE,
        x < 16,
        y < 16,
    ensures
        ({
            let skipped = State { pc: (s.pc + 4) as u16, ..s };
            let stepped = State { pc: (s.pc + 2) as u16, ..s };
            let eq_imm = word_with_byte(3, x, byte);
            let ne_imm = word_with_byte(4, x, byte);
            let eq_reg = word_of(5, x, y, 0);
            let ne_reg = word_of(9, x, y, 0);
            let key_held = word_with_byte(0xe, x, 0x9e);
            let key_free = word_with_byte(0xe, x, 0xa1);
            &&& s.fault(eq_imm) is None
            &&& s.fault(ne_imm) is None
            &&& s.fault(eq_reg) is None
            &&& s.fault(ne_reg) is None
            &&& s.fault(key_held) is None
            &&& s.fault(key_free) is None
            &&& s.exec(eq_imm, keys, rnd) == if s.reg(x) == byte { skipped } else { stepped }
            &&& s.exec(ne_imm, keys, rnd) == if s.reg(x) != byte { skipped } else { stepped }
            &&& s.exec(eq_reg, keys, rnd) == if s.reg(x) == s.reg(y) { skipped } else { stepped }
            &&& s.exec(ne_reg, keys, rnd) == if s.reg(x) != s.reg(y) { skipped } else { stepped }
            &&& s.exec(key_held, keys, rnd) == if key_down(keys, s.reg(x)) { skipped } else { stepped }
            &&& s.exec(key_free, keys, rnd) == if !key_down(keys, s.reg(x)) { skipped } else { stepped }
        }),
{
    word_with_byte_digits(3, x, byte);
    word_with_byte_digits(4, x, byte);
    word_of_digits(5, x, y, 0);
    word_of_digits(9, x, y, 0);
    word_with_byte_digits(0xe, x, 0x9e);
    word_with_byte_digits(0xe, x, 0xa1);
}

/// Storing `V0..=Vx` (`Fx55`) and loading them again from the same place
/// (`Fx65`) gives those registers their stored values back, whatever they
/// were set to in between.
pub proof fn store_then_load_restores(s: State, between: State, x: u8, keys: u16, rnd: u8)
    requires
        s.wf(),
        s.pc + 1 < MEMORY_SIZE,
        s.index + x < MEMORY_SIZE,
        x < 16,
        between.wf(),
        between.pc + 1 < MEMORY_SIZE,
        between.index == s.index,
        between.memory == s.exec(word_with_byte(0xf, x, 0x55), keys, rnd).memory,
    ensures
        ({
            let store = word_with_byte(0xf, x, 0x55);
            let load = word_with_byte(0xf, x, 0x65);
            let loaded = between.exec(load, keys, rnd);
            &&& s.fault(store) is None
            &&& between.fault(load) is None
            &&& forall|r: int| 0 <= r <= x ==> #[trigger] loaded.registers[r] == s.registers[r]
            &&& forall|r: int| x < r < 16 ==> #[trigger] loaded.registers[r] == between.registers[r]
        }),
{
    word_with_byte_digits(0xf, x, 0x55);
    word_with_byte_digits(0xf, x, 0x65);
}

} // verus!
