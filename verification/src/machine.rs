//! The mathematical model of the virtual machine: its state as plain
//! sequences and numbers, and what each instruction does to it.

use vstd::prelude::*;
use crate::display::{collides, drawn};
use crate::font::{glyph_address, DIGITS};
use crate::instruction::{decoded, Instruction};
use crate::memory::word;
use crate::outcome::{Event, Fault};

verus! {

/// The whole state of a machine.
#[verifier::ext_equal]
pub struct Machine {
    /// The 4096 bytes of memory.
    pub memory: Seq<u8>,
    /// The general registers V0 to VF.
    pub v: Seq<u8>,
    /// The address register.
    pub i: u16,
    /// The program counter.
    pub pc: u16,
    /// The return addresses of the calls in progress, innermost last.
    pub stack: Seq<u16>,
    /// The delay timer.
    pub delay: u8,
    /// The sound timer.
    pub sound: u8,
    /// The framebuffer, row-major.
    pub pixels: Seq<bool>,
    /// Which keys are down.
    pub keys: Seq<bool>,
}

/// A machine state together with what the cycle that produced it reports.
#[verifier::ext_equal]
pub struct Step {
    pub machine: Machine,
    pub result: Result<Event, Fault>,
}

/// `n` reduced to a byte.
pub open spec fn wrap8(n: int) -> u8 {
    (n % 256) as u8
}

/// `n` reduced to 16 bits.
pub open spec fn wrap16(n: int) -> u16 {
    (n % 65536) as u16
}

/// A flag value: 1 for true, 0 for false.
pub open spec fn flag(b: bool) -> u8 {
    if b {
        1
    } else {
        0
    }
}

/// Whether some key is down.
pub open spec fn any_down(keys: Seq<bool>) -> bool {
    exists|k: int| 0 <= k < keys.len() && keys[k]
}

/// Whether `k` is the lowest-numbered key that is down.
pub open spec fn is_lowest_down(keys: Seq<bool>, k: int) -> bool {
    &&& 0 <= k < keys.len()
    &&& keys[k]
    &&& forall|j: int| 0 <= j < k ==> !keys[j]
}

/// The lowest-numbered key that is down, where there is one.
pub open spec fn lowest_down(keys: Seq<bool>) -> int {
    choose|k: int| is_lowest_down(keys, k)
}

/// Memory as it is when a machine is built around `rom`: the digit sprites
/// from address 0, the program from `0x200`, zero everywhere else.
pub open spec fn image(rom: Seq<u8>) -> Seq<u8> {
    Seq::new(
        4096,
        |a: int|
            if a < 80 {
                DIGITS[a]
            } else if 0x200 <= a < 0x200 + rom.len() {
                rom[a - 0x200]
            } else {
                0u8
            },
    )
}

impl Machine {
    /// The sizes that every machine keeps: 4096 bytes of memory, 16
    /// registers, at most 16 nested calls, 2048 pixels and 16 keys.
    pub open spec fn valid(self) -> bool {
        &&& self.memory.len() == 4096
        &&& self.v.len() == 16
        &&& self.stack.len() <= 16
        &&& self.pixels.len() == 2048
        &&& self.keys.len() == 16
    }

    /// The machine as built around the program `rom`.
    pub open spec fn boot(rom: Seq<u8>) -> Machine {
        Machine {
            memory: image(rom),
            v: Seq::new(16, |r: int| 0u8),
            i: 0,
            pc: 0x200,
            stack: Seq::empty(),
            delay: 0,
            sound: 0,
            pixels: Seq::new(2048, |c: int| false),
            keys: Seq::new(16, |k: int| false),
        }
    }

    /// This machine with register `x` holding `value`.
    pub open spec fn with_v(self, x: int, value: u8) -> Machine {
        Machine { v: self.v.update(x, value), ..self }
    }

    /// This machine with the flag register VF holding `value`.
    pub open spec fn with_flag(self, value: u8) -> Machine {
        self.with_v(0xf, value)
    }

    /// This machine with the program counter at `pc`.
    pub open spec fn with_pc(self, pc: u16) -> Machine {
        Machine { pc, ..self }
    }

    /// This machine with the address register holding `i`.
    pub open spec fn with_i(self, i: u16) -> Machine {
        Machine { i, ..self }
    }

    /// This machine with the program counter moved past one instruction.
    pub open spec fn skip(self) -> Machine {
        self.with_pc(wrap16(self.pc + 2))
    }

    /// This machine with the program counter moved back by one instruction.
    pub open spec fn rewind(self) -> Machine {
        self.with_pc(wrap16(self.pc - 2))
    }

    /// This machine, having skipped one instruction if `condition` holds.
    pub open spec fn skip_if(self, condition: bool) -> Machine {
        if condition {
            self.skip()
        } else {
            self
        }
    }

    /// The machine after one timer tick: each timer that is not yet zero
    /// goes down by one.
    pub open spec fn tick(self) -> Machine {
        Machine {
            delay: if self.delay > 0 {
                (self.delay - 1) as u8
            } else {
                0
            },
            sound: if self.sound > 0 {
                (self.sound - 1) as u8
            } else {
                0
            },
            ..self
        }
    }

    /// Whether the word at the program counter lies inside memory.
    pub open spec fn can_fetch(self) -> bool {
        self.pc + 1 < 4096
    }

    /// The instruction word at the program counter.
    pub open spec fn opcode(self) -> u16 {
        word(self.memory[self.pc as int], self.memory[self.pc + 1])
    }

    /// `CALL`: push the program counter and jump.
    pub open spec fn call(self, addr: u16) -> Machine {
        Machine { pc: addr, stack: self.stack.push(self.pc), ..self }
    }

    /// `RET`: pop the program counter.
    pub open spec fn ret(self) -> Machine {
        Machine { pc: self.stack.last(), stack: self.stack.drop_last(), ..self }
    }

    /// `ADD Vx, Vy`: VF takes the carry, then Vx the sum.
    pub open spec fn add(self, x: int, y: int) -> Machine {
        let a = self.v[x];
        let b = self.v[y];
        self.with_flag(flag(a + b > 255)).with_v(x, wrap8(a + b))
    }

    /// Subtraction of `b` from `a` into Vx: VF is set when `a > b`, then Vx
    /// takes the difference.
    pub open spec fn sub(self, x: int, a: u8, b: u8) -> Machine {
        self.with_flag(flag(a > b)).with_v(x, wrap8(a - b))
    }

    /// `SHR Vx`: VF takes the lowest bit of Vx, then Vx is halved.
    pub open spec fn shift_right(self, x: int) -> Machine {
        let flagged = self.with_flag((self.v[x] % 2) as u8);
        flagged.with_v(x, (flagged.v[x] / 2) as u8)
    }

    /// `SHL Vx`: VF takes the highest bit of Vx, then Vx is doubled.
    pub open spec fn shift_left(self, x: int) -> Machine {
        let flagged = self.with_flag((self.v[x] / 128) as u8);
        flagged.with_v(x, wrap8(flagged.v[x] * 2))
    }

    /// `ADD I, Vx`: VF tells whether the sum leaves the 12-bit range, then I
    /// takes the sum. I keeps all 16 bits of it.
    pub open spec fn add_index(self, x: int) -> Machine {
        let flagged = self.with_flag(flag(self.i + self.v[x] > 0xfff));
        flagged.with_i(wrap16(flagged.i + flagged.v[x]))
    }

    /// `LD B, Vx`: the hundreds, tens and ones of Vx at I, I + 1 and I + 2.
    pub open spec fn bcd(self, x: int) -> Machine {
        let value = self.v[x];
        let at = self.i as int;
        Machine {
            memory: self.memory.update(at, (value / 100) as u8).update(
                at + 1,
                ((value / 10) % 10) as u8,
            ).update(at + 2, (value % 10) as u8),
            ..self
        }
    }

    /// `LD [I], Vx`: V0 to Vx copied to memory from I on.
    pub open spec fn save(self, x: int) -> Machine {
        let at = self.i as int;
        Machine {
            memory: Seq::new(
                self.memory.len(),
                |a: int|
                    if at <= a <= at + x {
                        self.v[a - at]
                    } else {
                        self.memory[a]
                    },
            ),
            ..self
        }
    }

    /// `LD Vx, [I]`: V0 to Vx copied from memory from I on.
    pub open spec fn restore(self, x: int) -> Machine {
        let at = self.i as int;
        Machine {
            v: Seq::new(
                self.v.len(),
                |r: int|
                    if r <= x {
                        self.memory[at + r]
                    } else {
                        self.v[r]
                    },
            ),
            ..self
        }
    }

    /// `DRW Vx, Vy, rows`: the sprite held in the `rows` bytes at I is drawn
    /// at `(Vx, Vy)`, then VF tells whether it collided.
    pub open spec fn draw(self, x: int, y: int, rows: int) -> Machine {
        let sprite = self.memory.subrange(self.i as int, self.i + rows);
        let col = self.v[x] as int;
        let row = self.v[y] as int;
        Machine { pixels: drawn(self.pixels, col, row, sprite), ..self }.with_flag(
            flag(collides(self.pixels, col, row, sprite)),
        )
    }

    /// The cycle ends well in the state `self`.
    pub open spec fn done(self) -> Step {
        Step { machine: self, result: Ok(Event::Completed) }
    }

    /// The cycle fails with `fault` and leaves the state `self`.
    pub open spec fn fail(self, fault: Fault) -> Step {
        Step { machine: self, result: Err(fault) }
    }

    /// What executing `instruction` does to a machine whose program counter
    /// is already past it. `random` is the byte drawn for `RND`; no other
    /// instruction looks at it. A fault leaves the machine as it was.
    pub open spec fn executed(self, instruction: Instruction, random: u8) -> Step {
        match instruction {
            Instruction::ClearScreen => Machine {
                pixels: Seq::new(2048, |c: int| false),
                ..self
            }.done(),
            Instruction::Return => if self.stack.len() == 0 {
                self.fail(Fault::StackUnderflow)
            } else {
                self.ret().done()
            },
            Instruction::Jump { addr } => self.with_pc(addr).done(),
            Instruction::Call { addr } => if self.stack.len() >= 16 {
                self.fail(Fault::StackOverflow)
            } else {
                self.call(addr).done()
            },
            Instruction::SkipIfByte { x, byte } => self.skip_if(self.v[x as int] == byte).done(),
            Instruction::SkipUnlessByte { x, byte } => self.skip_if(
                self.v[x as int] != byte,
            ).done(),
            Instruction::SkipIfSame { x, y } => self.skip_if(
                self.v[x as int] == self.v[y as int],
            ).done(),
            Instruction::SetByte { x, byte } => self.with_v(x as int, byte).done(),
            Instruction::AddByte { x, byte } => self.with_v(
                x as int,
                wrap8(self.v[x as int] + byte),
            ).done(),
            Instruction::Assign { x, y } => self.with_v(x as int, self.v[y as int]).done(),
            Instruction::Or { x, y } => self.with_v(
                x as int,
                self.v[x as int] | self.v[y as int],
            ).done(),
            Instruction::And { x, y } => self.with_v(
                x as int,
                self.v[x as int] & self.v[y as int],
            ).done(),
            Instruction::Xor { x, y } => self.with_v(
                x as int,
                self.v[x as int] ^ self.v[y as int],
            ).done(),
            Instruction::Add { x, y } => self.add(x as int, y as int).done(),
            Instruction::Sub { x, y } => self.sub(
                x as int,
                self.v[x as int],
                self.v[y as int],
            ).done(),
            Instruction::ShiftRight { x } => self.shift_right(x as int).done(),
            Instruction::SubFrom { x, y } => self.sub(
                x as int,
                self.v[y as int],
                self.v[x as int],
            ).done(),
            Instruction::ShiftLeft { x } => self.shift_left(x as int).done(),
            Instruction::SkipUnlessSame { x, y } => self.skip_if(
                self.v[x as int] != self.v[y as int],
            ).done(),
            Instruction::SetIndex { addr } => self.with_i(addr).done(),
            Instruction::JumpOffset { addr } => self.with_pc(wrap16(self.v[0] + addr)).done(),
            Instruction::Random { x, byte } => self.with_v(x as int, random & byte).done(),
            Instruction::Draw { x, y, rows } => if self.i + rows > 4096 {
                self.fail(Fault::OutOfBoundsMemoryAccess)
            } else {
                self.draw(x as int, y as int, rows as int).done()
            },
            Instruction::SkipIfKey { x } => if self.v[x as int] >= 16 {
                self.fail(Fault::OutOfBoundsMemoryAccess)
            } else {
                self.skip_if(self.keys[self.v[x as int] as int]).done()
            },
            Instruction::SkipUnlessKey { x } => if self.v[x as int] >= 16 {
                self.fail(Fault::OutOfBoundsMemoryAccess)
            } else {
                self.skip_if(!self.keys[self.v[x as int] as int]).done()
            },
            Instruction::ReadDelay { x } => self.with_v(x as int, self.delay).done(),
            Instruction::WaitKey { x } => if any_down(self.keys) {
                self.with_v(x as int, lowest_down(self.keys) as u8).done()
            } else {
                Step { machine: self.rewind(), result: Ok(Event::AwaitingKey) }
            },
            Instruction::SetDelay { x } => Machine { delay: self.v[x as int], ..self }.done(),
            Instruction::SetSound { x } => Machine { sound: self.v[x as int], ..self }.done(),
            Instruction::AddIndex { x } => self.add_index(x as int).done(),
            Instruction::Glyph { x } => if self.v[x as int] >= 16 {
                self.fail(Fault::OutOfBoundsMemoryAccess)
            } else {
                self.with_i(glyph_address(self.v[x as int] as int) as u16).done()
            },
            Instruction::Bcd { x } => if self.i + 2 >= 4096 {
                self.fail(Fault::OutOfBoundsMemoryAccess)
            } else {
                self.bcd(x as int).done()
            },
            Instruction::Save { x } => if self.i + x >= 4096 {
                self.fail(Fault::OutOfBoundsMemoryAccess)
            } else {
                self.save(x as int).done()
            },
            Instruction::Restore { x } => if self.i + x >= 4096 {
                self.fail(Fault::OutOfBoundsMemoryAccess)
            } else {
                self.restore(x as int).done()
            },
            Instruction::Unknown { opcode } => Step {
                machine: self,
                result: Ok(Event::UnknownOpcode(opcode)),
            },
        }
    }

    /// One whole cycle: fetch the word at the program counter, move the
    /// program counter past it, decode the word and execute it. A word that
    /// does not lie inside memory cannot be fetched: that is a fault, and
    /// nothing changes.
    pub open spec fn cycle(self, random: u8) -> Step {
        if self.can_fetch() {
            self.skip().executed(decoded(self.opcode()), random)
        } else {
            self.fail(Fault::OutOfBoundsMemoryAccess)
        }
    }
}

} // verus!
