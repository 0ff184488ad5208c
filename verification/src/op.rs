//! The instruction set: one variant per operation, and the decoder from
//! 16-bit instruction words.

use vstd::prelude::*;

verus! {

/// One operation of the instruction set together with its operands.
///
/// `x` and `y` name registers, `addr` is a 12-bit address, `byte` an 8-bit
/// immediate and `rows` the height of a sprite.
#[derive(Clone, Copy, Debug, PartialEq, Eq, Structural)]
pub enum Op {
    /// `00E0`: blank the display.
    ClearScreen,
    /// `00EE`: return from a subroutine.
    Return,
    /// `1nnn`: jump to `addr`.
    Jump { addr: u16 },
    /// `2nnn`: call the subroutine at `addr`.
    Call { addr: u16 },
    /// `3xkk`: skip the next instruction if `Vx == byte`.
    SkipEqImm { x: u8, byte: u8 },
    /// `4xkk`: skip the next instruction if `Vx != byte`.
    SkipNeImm { x: u8, byte: u8 },
    /// `5xy-`: skip the next instruction if `Vx == Vy`.
    SkipEqReg { x: u8, y: u8 },
    /// `6xkk`: `Vx = byte`.
    LoadImm { x: u8, byte: u8 },
    /// `7xkk`: `Vx = Vx + byte`, wrapping, flag untouched.
    AddImm { x: u8, byte: u8 },
    /// `8xy0`: `Vx = Vy`.
    Move { x: u8, y: u8 },
    /// `8xy1`: `Vx = Vx | Vy`.
    Or { x: u8, y: u8 },
    /// `8xy2`: `Vx = Vx & Vy`.
    And { x: u8, y: u8 },
    /// `8xy3`: `Vx = Vx ^ Vy`.
    Xor { x: u8, y: u8 },
    /// `8xy4`: `Vx = Vx + Vy`, `VF` = carry.
    AddCarry { x: u8, y: u8 },
    /// `8xy5`: `Vx = Vx - Vy`, `VF` = borrow.
    SubBorrow { x: u8, y: u8 },
    /// `8xy6`: `Vx = Vx >> 1`, `VF` = the bit shifted out.
    ShiftRight { x: u8, y: u8 },
    /// `8xy7`: `Vx = Vy - Vx`, `VF` = borrow.
    SubReverse { x: u8, y: u8 },
    /// `8xyE`: `Vx = Vx << 1`, `VF` = the bit shifted out.
    ShiftLeft { x: u8, y: u8 },
    /// `9xy-`: skip the next instruction if `Vx != Vy`.
    SkipNeReg { x: u8, y: u8 },
    /// `Annn`: `I = addr`.
    LoadIndex { addr: u16 },
    /// `Bnnn`: jump to `addr + V0`.
    JumpOffset { addr: u16 },
    /// `Cxkk`: `Vx` = a random byte masked with `byte`.
    Random { x: u8, byte: u8 },
    /// `Dxyn`: draw the `rows`-line sprite at `I` to `(Vx, Vy)`, `VF` = collision.
    Draw { x: u8, y: u8, rows: u8 },
    /// `Ex9E`: skip the next instruction if the key named by `Vx` is held.
    SkipKeyDown { x: u8 },
    /// `ExA1`: skip the next instruction if the key named by `Vx` is not held.
    SkipKeyUp { x: u8 },
    /// `Fx07`: `Vx` = delay timer.
    ReadDelay { x: u8 },
    /// `Fx0A`: suspend dispatch until a key arrives, then `Vx` = its code.
    WaitKey { x: u8 },
    /// `Fx15`: delay timer = `Vx`.
    SetDelay { x: u8 },
    /// `Fx18`: sound timer = `Vx`.
    SetSound { x: u8 },
    /// `Fx1E`: `I = I + Vx`.
    AddIndex { x: u8 },
    /// `Fx29`: `I` = address of the glyph for the low nibble of `Vx`.
    Glyph { x: u8 },
    /// `Fx33`: store the decimal digits of `Vx` at `I`, `I + 1`, `I + 2`.
    Bcd { x: u8 },
    /// `Fx55`: store `V0..=Vx` at `I..`.
    Store { x: u8 },
    /// `Fx65`: load `V0..=Vx` from `I..`.
    Load { x: u8 },
}

/// The four 4-bit digits of an instruction word, most significant first.
pub open spec fn nibbles(word: u16) -> (int, int, int, int) {
    (word as int / 4096, (word as int / 256) % 16, (word as int / 16) % 16, word as int % 16)
}

/// The operation that an instruction word stands for, `None` where it stands
/// for none.
///
/// The leading digit selects the family; the families `0`, `8`, `E` and `F`
/// are told apart further by their trailing digits, and the trailing digit of
/// `5` and `9` is not looked at.
pub open spec fn decode_spec(word: u16) -> Option<Op> {
    let (family, x, y, n) = nibbles(word);
    let x = x as u8;
    let y = y as u8;
    let byte = (word % 256) as u8;
    let addr = (word % 4096) as u16;
    if family == 0x0 {
        if word == 0x00e0 {
            Some(Op::ClearScreen)
        } else if word == 0x00ee {
            Some(Op::Return)
        } else {
            None
        }
    } else if family == 0x1 {
        Some(Op::Jump { addr })
    } else if family == 0x2 {
        Some(Op::Call { addr })
    } else if family == 0x3 {
        Some(Op::SkipEqImm { x, byte })
    } else if family == 0x4 {
        Some(Op::SkipNeImm { x, byte })
    } else if family == 0x5 {
        Some(Op::SkipEqReg { x, y })
    } else if family == 0x6 {
        Some(Op::LoadImm { x, byte })
    } else if family == 0x7 {
        Some(Op::AddImm { x, byte })
    } else if family == 0x8 {
        if n == 0x0 {
            Some(Op::Move { x, y })
        } else if n == 0x1 {
            Some(Op::Or { x, y })
        } else if n == 0x2 {
            Some(Op::And { x, y })
        } else if n == 0x3 {
            Some(Op::Xor { x, y })
        } else if n == 0x4 {
            Some(Op::AddCarry { x, y })
        } else if n == 0x5 {
            Some(Op::SubBorrow { x, y })
        } else if n == 0x6 {
            Some(Op::ShiftRight { x, y })
        } else if n == 0x7 {
            Some(Op::SubReverse { x, y })
        } else if n == 0xe {
            Some(Op::ShiftLeft { x, y })
        } else {
            None
        }
    } else if family == 0x9 {
        Some(Op::SkipNeReg { x, y })
    } else if family == 0xa {
        Some(Op::LoadIndex { addr })
    } else if family == 0xb {
        Some(Op::JumpOffset { addr })
    } else if family == 0xc {
        Some(Op::Random { x, byte })
    } else if family == 0xd {
        Some(Op::Draw { x, y, rows: n as u8 })
    } else if family == 0xe {
        if byte == 0x9e {
            Some(Op::SkipKeyDown { x })
        } else if byte == 0xa1 {
            Some(Op::SkipKeyUp { x })
        } else {
            None
        }
    } else {
        if byte == 0x07 {
            Some(Op::ReadDelay { x })
        } else if byte == 0x0a {
            Some(Op::WaitKey { x })
        } else if byte == 0x15 {
            Some(Op::SetDelay { x })
        } else if byte == 0x18 {
            Some(Op::SetSound { x })
        } else if byte == 0x1e {
            Some(Op::AddIndex { x })
        } else if byte == 0x29 {
            Some(Op::Glyph { x })
        } else if byte == 0x33 {
            Some(Op::Bcd { x })
        } else if byte == 0x55 {
            Some(Op::Store { x })
        } else if byte == 0x65 {
            Some(Op::Load { x })
        } else {
            None
        }
    }
}

impl Op {
    /// Every operand is within the width that the encoding gives it: register
    /// numbers and sprite heights below 16, addresses below 4096.
    pub open spec fn wf(self) -> bool {
        match self {
            Op::ClearScreen | Op::Return => true,
            Op::Jump { addr } | Op::Call { addr } | Op::LoadIndex { addr } | Op::JumpOffset {
                addr,
            } => addr < 4096,
            Op::SkipEqImm { x, .. }
            | Op::SkipNeImm { x, .. }
            | Op::LoadImm { x, .. }
            | Op::AddImm { x, .. }
            | Op::Random { x, .. } => x < 16,
            Op::SkipEqReg { x, y }
            | Op::Move { x, y }
            | Op::Or { x, y }
            | Op::And { x, y }
            | Op::Xor { x, y }
            | Op::AddCarry { x, y }
            | Op::SubBorrow { x, y }
            | Op::ShiftRight { x, y }
            | Op::SubReverse { x, y }
            | Op::ShiftLeft { x, y }
            | Op::SkipNeReg { x, y } => x < 16 && y < 16,
            Op::Draw { x, y, rows } => x < 16 && y < 16 && rows < 16,
            Op::SkipKeyDown { x }
            | Op::SkipKeyUp { x }
            | Op::ReadDelay { x }
            | Op::WaitKey { x }
            | Op::SetDelay { x }
            | Op::SetSound { x }
            | Op::AddIndex { x }
            | Op::Glyph { x }
            | Op::Bcd { x }
            | Op::Store { x }
            | Op::Load { x } => x < 16,
        }
    }
}

/// The instruction word written with the four digits `family`, `x`, `y`, `n`.
pub open spec fn word_of(family: u8, x: u8, y: u8, n: u8) -> u16 {
    (4096 * family + 256 * x + 16 * y + n) as u16
}

/// A word written with four digits has those digits, and its low byte and
/// its low twelve bits are what the trailing digits make.
pub proof fn word_of_digits(family: u8, x: u8, y: u8, n: u8)
    requires
        family < 16,
        x < 16,
        y < 16,
        n < 16,
    ensures
        word_of(family, x, y, n) == 4096 * family + 256 * x + 16 * y + n,
        nibbles(word_of(family, x, y, n)) == (family as int, x as int, y as int, n as int),
        word_of(family, x, y, n) % 256 == 16 * y + n,
        word_of(family, x, y, n) % 4096 == 256 * x + 16 * y + n,
{
    let w = word_of(family, x, y, n);
    assert(w / 4096 == family && (w / 256) % 16 == x && (w / 16) % 16 == y && w % 16 == n && w
        % 256 == 16 * y + n && w % 4096 == 256 * x + 16 * y + n) by (bit_vector)
        requires
            family < 16,
            x < 16,
            y < 16,
            n < 16,
            w == 4096 * family + 256 * x + 16 * y + n,
    ;
}

/// The instruction word written with the digits `family` and `x` and the
/// byte `byte`.
pub open spec fn word_with_byte(family: u8, x: u8, byte: u8) -> u16 {
    (4096 * family + 256 * x + byte) as u16
}

/// A word written with two digits and a byte has those digits and that low
/// byte.
pub proof fn word_with_byte_digits(family: u8, x: u8, byte: u8)
    requires
        family < 16,
        x < 16,
    ensures
        word_with_byte(family, x, byte) == 4096 * family + 256 * x + byte,
        nibbles(word_with_byte(family, x, byte)).0 == family,
        nibbles(word_with_byte(family, x, byte)).1 == x,
        word_with_byte(family, x, byte) % 256 == byte,
{
    let w = word_with_byte(family, x, byte);
    assert(w / 4096 == family && (w / 256) % 16 == x && w % 256 == byte) by (bit_vector)
        requires
            family < 16,
            x < 16,
            w == 4096 * family + 256 * x + byte,
    ;
}

/// The instruction word written with the digit `family` and the 12-bit
/// address `addr`.
pub open spec fn word_with_addr(family: u8, addr: u16) -> u16 {
    (4096 * family + addr) as u16
}

/// A word written with a digit and an address has that digit and those low
/// twelve bits.
pub proof fn word_with_addr_digits(family: u8, addr: u16)
    requires
        family < 16,
        addr < 4096,
    ensures
        word_with_addr(family, addr) == 4096 * family + addr,
        nibbles(word_with_addr(family, addr)).0 == family,
        word_with_addr(family, addr) % 4096 == addr,
{
    let w = word_with_addr(family, addr);
    assert(w / 4096 == family && w % 4096 == addr) by (bit_vector)
        requires
            family < 16,
            addr < 4096,
            w == 4096 * family + addr,
    ;
}

/// Decodes an instruction word.
pub fn decode(word: u16) -> (op: Option<Op>)
    ensures
        op == decode_spec(word),
        op matches Some(o) ==> o.wf(),
{
    let x: u8 = ((word & 0x0f00) >> 8) as u8;
    let y: u8 = ((word & 0x00f0) >> 4) as u8;
    let n: u8 = (word & 0x000f) as u8;
    let byte: u8 = (word & 0x00ff) as u8;
    let addr: u16 = word & 0x0fff;
    let family: u16 = word >> 12;
    proof {
        assert((word & 0x0f00) >> 8 == (word / 256) % 16) by (bit_vector);
        assert((word & 0x00f0) >> 4 == (word / 16) % 16) by (bit_vector);
        assert(word & 0x000f == word % 16) by (bit_vector);
        assert(word & 0x00ff == word % 256) by (bit_vector);
        assert(word & 0x0fff == word % 4096) by (bit_vector);
        assert(word >> 12 == word / 4096) by (bit_vector);
    }
    match family {
        0x0 => match word {
            0x00e0 => Some(Op::ClearScreen),
            0x00ee => Some(Op::Return),
            _ => None,
        },
        0x1 => Some(Op::Jump { addr }),
        0x2 => Some(Op::Call { addr }),
        0x3 => Some(Op::SkipEqImm { x, byte }),
        0x4 => Some(Op::SkipNeImm { x, byte }),
        0x5 => Some(Op::SkipEqReg { x, y }),
        0x6 => Some(Op::LoadImm { x, byte }),
        0x7 => Some(Op::AddImm { x, byte }),
        0x8 => match n {
            0x0 => Some(Op::Move { x, y }),
            0x1 => Some(Op::Or { x, y }),
            0x2 => Some(Op::And { x, y }),
            0x3 => Some(Op::Xor { x, y }),
            0x4 => Some(Op::AddCarry { x, y }),
            0x5 => Some(Op::SubBorrow { x, y }),
            0x6 => Some(Op::ShiftRight { x, y }),
            0x7 => Some(Op::SubReverse { x, y }),
            0xe => Some(Op::ShiftLeft { x, y }),
            _ => None,
        },
        0x9 => Some(Op::SkipNeReg { x, y }),
        0xa => Some(Op::LoadIndex { addr }),
        0xb => Some(Op::JumpOffset { addr }),
        0xc => Some(Op::Random { x, byte }),
        0xd => Some(Op::Draw { x, y, rows: n }),
        0xe => match byte {
            0x9e => Some(Op::SkipKeyDown { x }),
            0xa1 => Some(Op::SkipKeyUp { x }),
            _ => None,
        },
        _ => match byte {
            0x07 => Some(Op::ReadDelay { x }),
            0x0a => Some(Op::WaitKey { x }),
            0x15 => Some(Op::SetDelay { x }),
            0x18 => Some(Op::SetSound { x }),
            0x1e => Some(Op::AddIndex { x }),
            0x29 => Some(Op::Glyph { x }),
            0x33 => Some(Op::Bcd { x }),
            0x55 => Some(Op::Store { x }),
            0x65 => Some(Op::Load { x }),
            _ => None,
        },
    }
}

} // verus!
