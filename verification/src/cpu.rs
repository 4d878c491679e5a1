//! The interpreter: one fetch-decode-execute cycle at a time.

use vstd::prelude::*;
use vstd::slice::slice_subrange;
use rand::Rng;
use crate::display::Display;
use crate::font::{glyph_address, DIGITS, GLYPH_ROWS};
use crate::instruction::{decode, decoded, Instruction};
use crate::keyboard::Keyboard;
use crate::machine::{any_down, flag, image, is_lowest_down, lowest_down, wrap8, Machine, Step};
use crate::memory::{Data, Memory};
use crate::outcome::{Event, Fault};
use crate::register::{Register, STACK_DEPTH};

verus! {

/// Bytes of memory.
pub const MEMORY_SIZE: usize = 0x1000;

/// The longest program that fits between `ENTRY` and the end of memory.
pub const ROM_CAPACITY: usize = 0xe00;

/// The virtual machine.
pub struct Cpu {
    pub memory: Data,
    pub display: Display,
    pub register: Register,
    pub keyboard: Keyboard,
}

impl View for Cpu {
    type V = Machine;

    open spec fn view(&self) -> Machine {
        Machine {
            memory: self.memory.data@,
            v: self.register.v@,
            i: self.register.i,
            pc: self.register.pc,
            stack: self.register.stack@,
            delay: self.register.delay,
            sound: self.register.sound,
            pixels: self.display@,
            keys: self.keyboard.state@,
        }
    }
}

impl Cpu {
    /// The parts have the sizes that the machine is built with.
    pub open spec fn wf(&self) -> bool {
        self@.valid()
    }

    /// A machine with `rom` loaded at `ENTRY`, the digit sprites at the
    /// start of memory and everything else at rest.
    pub fn new(rom: &[u8]) -> (cpu: Cpu)
        requires
            rom@.len() <= ROM_CAPACITY,
        ensures
            cpu.wf(),
            cpu@ == Machine::boot(rom@),
    {
        let mut memory = Data::new(MEMORY_SIZE);
        let mut a: usize = 0;
        while a < DIGITS.len()
            invariant
                a <= 80,
                memory.data@.len() == 4096,
                forall|k: int| 0 <= k < a ==> memory.data@[k] == DIGITS[k],
                forall|k: int| a <= k < 4096 ==> memory.data@[k] == 0,
            decreases 80 - a,
        {
            memory.set_u8(a, DIGITS[a]);
            a += 1;
        }
        let mut b: usize = 0;
        while b < rom.len()
            invariant
                b <= rom@.len() <= ROM_CAPACITY,
                memory.data@.len() == 4096,
                forall|k: int| 0 <= k < 80 ==> memory.data@[k] == DIGITS[k],
                forall|k: int| 0x200 <= k < 0x200 + b ==> memory.data@[k] == rom@[k - 0x200],
                forall|k: int|
                    80 <= k < 4096 && !(0x200 <= k < 0x200 + b) ==> memory.data@[k] == 0,
            decreases rom@.len() - b,
        {
            memory.set_u8(0x200 + b, rom[b]);
            b += 1;
        }
        let cpu = Cpu {
            memory,
            display: Display::new(),
            keyboard: Keyboard::new(),
            register: Register::new(),
        };
        assert(cpu@.memory =~= image(rom@));
        assert(cpu@ =~= Machine::boot(rom@));
        cpu
    }

    /// Fetches the instruction word at the program counter and moves the
    /// program counter past it. A word that does not lie inside memory is a
    /// fault, and nothing changes.
    pub fn get_next_u16(&mut self) -> (fetched: Result<u16, Fault>)
        requires
            old(self).wf(),
        ensures
            final(self).wf(),
            old(self)@.can_fetch() ==> fetched == Ok::<u16, Fault>(old(self)@.opcode())
                && final(self)@ == old(self)@.skip(),
            !old(self)@.can_fetch() ==> fetched == Err::<u16, Fault>(
                Fault::OutOfBoundsMemoryAccess,
            ) && final(self)@ == old(self)@,
    {
        let at: usize = self.register.pc as usize;
        if at + 1 >= MEMORY_SIZE {
            return Err(Fault::OutOfBoundsMemoryAccess);
        }
        let result = self.memory.get_u16(at);
        self.register.pc += 2;
        Ok(result)
    }

    /// One timer tick: each timer that is not yet zero goes down by one.
    pub fn decrement_timers(&mut self)
        ensures
            final(self)@ == old(self)@.tick(),
    {
        if self.register.delay > 0 {
            self.register.delay -= 1;
        }
        if self.register.sound > 0 {
            self.register.sound -= 1;
        }
    }

    /// `CALL addr`: pushes the program counter and jumps to `addr`. With the
    /// call stack full it is a fault, and nothing changes.
    fn call(&mut self, addr: u16) -> (called: Result<(), Fault>)
        requires
            old(self).wf(),
        ensures
            final(self).wf(),
            old(self)@.stack.len() < 16 ==> called == Ok::<(), Fault>(()) && final(self)@ == old(
                self,
            )@.call(addr),
            old(self)@.stack.len() >= 16 ==> called == Err::<(), Fault>(Fault::StackOverflow)
                && final(self)@ == old(self)@,
    {
        if self.register.stack.len() >= STACK_DEPTH {
            return Err(Fault::StackOverflow);
        }
        self.register.stack.push(self.register.pc);
        self.register.pc = addr;
        Ok(())
    }

    /// `RET`: pops the program counter. With the call stack empty it is a
    /// fault, and nothing changes.
    fn ret(&mut self) -> (returned: Result<(), Fault>)
        requires
            old(self).wf(),
        ensures
            final(self).wf(),
            old(self)@.stack.len() > 0 ==> returned == Ok::<(), Fault>(()) && final(self)@ == old(
                self,
            )@.ret(),
            old(self)@.stack.len() == 0 ==> returned == Err::<(), Fault>(Fault::StackUnderflow)
                && final(self)@ == old(self)@,
    {
        match self.register.stack.pop() {
            Some(pc) => {
                self.register.pc = pc;
                Ok(())
            },
            None => Err(Fault::StackUnderflow),
        }
    }

    /// Moves the program counter past the next instruction.
    fn skip(&mut self)
        ensures
            final(self)@ == old(self)@.skip(),
    {
        self.register.pc = self.register.pc.wrapping_add(2);
    }

    /// `SE`: skips the next instruction if register `idx` holds `value`.
    fn skip_if_equal(&mut self, idx: usize, value: u8)
        requires
            old(self).wf(),
            idx < 16,
        ensures
            final(self)@ == old(self)@.skip_if(old(self)@.v[idx as int] == value),
    {
        if self.register.v[idx] == value {
            self.skip();
        }
    }

    /// `SNE`: skips the next instruction unless register `idx` holds
    /// `value`.
    fn skip_if_not_equal(&mut self, idx: usize, value: u8)
        requires
            old(self).wf(),
            idx < 16,
        ensures
            final(self)@ == old(self)@.skip_if(old(self)@.v[idx as int] != value),
    {
        if self.register.v[idx] != value {
            self.skip();
        }
    }

    /// `RND`: stores in register `idx` the random byte `value` masked by
    /// `byte`.
    fn random(&mut self, idx: usize, byte: u8, value: u8)
        requires
            old(self).wf(),
            idx < 16,
        ensures
            final(self)@ == old(self)@.with_v(idx as int, value & byte),
    {
        self.register.v[idx] = value & byte;
    }

    /// Adds `a` and `b` modulo 256 and sets VF to the carry.
    fn add(&mut self, a: u8, b: u8) -> (sum: u8)
        requires
            old(self).wf(),
        ensures
            sum == wrap8(a + b),
            final(self)@ == old(self)@.with_flag(flag(a + b > 255)),
    {
        let result = a.wrapping_add(b);
        self.register.v[0xf] = if a as u16 + b as u16 > 0xff {
            1
        } else {
            0
        };
        result
    }

    /// Subtracts `b` from `a` modulo 256 and sets VF when `a > b`.
    fn sub(&mut self, a: u8, b: u8) -> (difference: u8)
        requires
            old(self).wf(),
        ensures
            difference == wrap8(a - b),
            final(self)@ == old(self)@.with_flag(flag(a > b)),
    {
        let result = a.wrapping_sub(b);
        self.register.v[0xf] = if a > b {
            1
        } else {
            0
        };
        result
    }

    /// `SHL`: VF takes the highest bit of register `idx`, which is then
    /// shifted left by one.
    fn shift_left(&mut self, idx: usize)
        requires
            old(self).wf(),
            idx < 16,
        ensures
            final(self)@ == old(self)@.shift_left(idx as int),
    {
        let value: u8 = self.register.v[idx];
        assert((value & 0x80 != 0) == (value / 128 == 1)) by (bit_vector);
        self.register.v[0xf] = if value & 0x80 != 0 {
            1
        } else {
            0
        };
        let value: u8 = self.register.v[idx];
        assert(value << 1 == (value as u16 * 2) % 256) by (bit_vector);
        self.register.v[idx] = value << 1;
    }

    /// `SHR`: VF takes the lowest bit of register `idx`, which is then
    /// shifted right by one.
    fn shift_right(&mut self, idx: usize)
        requires
            old(self).wf(),
            idx < 16,
        ensures
            final(self)@ == old(self)@.shift_right(idx as int),
    {
        let value: u8 = self.register.v[idx];
        assert((value & 0x01 != 0) == (value % 2 == 1)) by (bit_vector);
        self.register.v[0xf] = if value & 0x01 != 0 {
            1
        } else {
            0
        };
        let value: u8 = self.register.v[idx];
        assert(value >> 1 == value / 2) by (bit_vector);
        self.register.v[idx] = value >> 1;
    }

    /// `LD [I], Vx`: stores the registers V0 to V`end` in memory from I on.
    /// If they do not all fit inside memory it is a fault, and nothing
    /// changes.
    fn save_register(&mut self, end: usize) -> (saved: Result<(), Fault>)
        requires
            old(self).wf(),
            end < 16,
        ensures
            final(self).wf(),
            old(self)@.i + end < 4096 ==> saved == Ok::<(), Fault>(()) && final(self)@ == old(
                self,
            )@.save(end as int),
            old(self)@.i + end >= 4096 ==> saved == Err::<(), Fault>(
                Fault::OutOfBoundsMemoryAccess,
            ) && final(self)@ == old(self)@,
    {
        let at: usize = self.register.i as usize;
        if at + end >= MEMORY_SIZE {
            return Err(Fault::OutOfBoundsMemoryAccess);
        }
        let ghost before = self@;
        let mut r: usize = 0;
        while r < end + 1
            invariant
                r <= end + 1,
                end < 16,
                at + end < 4096,
                at == before.i,
                before.valid(),
                self@ == (Machine {
                    memory: Seq::new(
                        4096,
                        |a: int|
                            if at <= a < at + r {
                                before.v[a - at]
                            } else {
                                before.memory[a]
                            },
                    ),
                    ..before
                }),
            decreases end + 1 - r,
        {
            self.memory.set_u8(at + r, self.register.v[r]);
            r += 1;
        }
        Ok(())
    }

    /// `LD Vx, [I]`: loads the registers V0 to V`end` from memory from I on.
    /// If the bytes do not all lie inside memory it is a fault, and nothing
    /// changes.
    fn load_register(&mut self, end: usize) -> (loaded: Result<(), Fault>)
        requires
            old(self).wf(),
            end < 16,
        ensures
            final(self).wf(),
            old(self)@.i + end < 4096 ==> loaded == Ok::<(), Fault>(()) && final(self)@ == old(
                self,
            )@.restore(end as int),
            old(self)@.i + end >= 4096 ==> loaded == Err::<(), Fault>(
                Fault::OutOfBoundsMemoryAccess,
            ) && final(self)@ == old(self)@,
    {
        let at: usize = self.register.i as usize;
        if at + end >= MEMORY_SIZE {
            return Err(Fault::OutOfBoundsMemoryAccess);
        }
        let ghost before = self@;
        let mut r: usize = 0;
        while r < end + 1
            invariant
                r <= end + 1,
                end < 16,
                at + end < 4096,
                at == before.i,
                before.valid(),
                self@ == (Machine {
                    v: Seq::new(
                        16,
                        |q: int|
                            if q < r {
                                before.memory[at + q]
                            } else {
                                before.v[q]
                            },
                    ),
                    ..before
                }),
            decreases end + 1 - r,
        {
            self.register.v[r] = self.memory.get_u8(at + r);
            r += 1;
        }
        Ok(())
    }

    /// `LD B, Vx`: stores the hundreds, tens and ones of register `idx` at
    /// I, I + 1 and I + 2. If they do not fit inside memory it is a fault,
    /// and nothing changes.
    fn save_bcd(&mut self, idx: usize) -> (saved: Result<(), Fault>)
        requires
            old(self).wf(),
            idx < 16,
        ensures
            final(self).wf(),
            old(self)@.i + 2 < 4096 ==> saved == Ok::<(), Fault>(()) && final(self)@ == old(
                self,
            )@.bcd(idx as int),
            old(self)@.i + 2 >= 4096 ==> saved == Err::<(), Fault>(
                Fault::OutOfBoundsMemoryAccess,
            ) && final(self)@ == old(self)@,
    {
        let pos: usize = self.register.i as usize;
        if pos + 2 >= MEMORY_SIZE {
            return Err(Fault::OutOfBoundsMemoryAccess);
        }
        self.memory.set_u8(pos, self.register.v[idx] / 100);
        self.memory.set_u8(pos + 1, (self.register.v[idx] / 10) % 10);
        self.memory.set_u8(pos + 2, self.register.v[idx] % 10);
        Ok(())
    }

    /// `SKP`: skips the next instruction if the key named by register `idx`
    /// is down. A register that names no key is a fault, and nothing
    /// changes.
    fn skip_if_pressed(&mut self, idx: usize) -> (skipped: Result<(), Fault>)
        requires
            old(self).wf(),
            idx < 16,
        ensures
            final(self).wf(),
            old(self)@.v[idx as int] < 16 ==> skipped == Ok::<(), Fault>(()) && final(self)@
                == old(self)@.skip_if(old(self)@.keys[old(self)@.v[idx as int] as int]),
            old(self)@.v[idx as int] >= 16 ==> skipped == Err::<(), Fault>(
                Fault::OutOfBoundsMemoryAccess,
            ) && final(self)@ == old(self)@,
    {
        let key: usize = self.register.v[idx] as usize;
        if key >= 16 {
            return Err(Fault::OutOfBoundsMemoryAccess);
        }
        if self.keyboard.is_down(key) {
            self.skip();
        }
        Ok(())
    }

    /// `SKNP`: skips the next instruction if the key named by register
    /// `idx` is up. A register that names no key is a fault, and nothing
    /// changes.
    fn skip_if_not_pressed(&mut self, idx: usize) -> (skipped: Result<(), Fault>)
        requires
            old(self).wf(),
            idx < 16,
        ensures
            final(self).wf(),
            old(self)@.v[idx as int] < 16 ==> skipped == Ok::<(), Fault>(()) && final(self)@
                == old(self)@.skip_if(!old(self)@.keys[old(self)@.v[idx as int] as int]),
            old(self)@.v[idx as int] >= 16 ==> skipped == Err::<(), Fault>(
                Fault::OutOfBoundsMemoryAccess,
            ) && final(self)@ == old(self)@,
    {
        let key: usize = self.register.v[idx] as usize;
        if key >= 16 {
            return Err(Fault::OutOfBoundsMemoryAccess);
        }
        if !self.keyboard.is_down(key) {
            self.skip();
        }
        Ok(())
    }

    /// `LD Vx, K`: scans the keys from `0x0` upwards and stores the first
    /// one found down in register `idx`. With no key down the program
    /// counter is moved back onto the instruction, so that the next cycle
    /// runs it again.
    fn wait_key(&mut self, idx: usize) -> (event: Event)
        requires
            old(self).wf(),
            idx < 16,
        ensures
            final(self).wf(),
            any_down(old(self)@.keys) ==> event == Event::Completed && final(self)@ == old(
                self,
            )@.with_v(idx as int, lowest_down(old(self)@.keys) as u8),
            !any_down(old(self)@.keys) ==> event == Event::AwaitingKey && final(self)@ == old(
                self,
            )@.rewind(),
    {
        let mut key: u8 = 0;
        while key < 0x10
            invariant
                key <= 16,
                idx < 16,
                *self == *old(self),
                self.wf(),
                forall|j: int| 0 <= j < key ==> !self@.keys[j],
            decreases 16 - key,
        {
            if self.keyboard.is_down(key as usize) {
                assert(is_lowest_down(self@.keys, key as int));
                self.register.v[idx] = key;
                return Event::Completed;
            }
            key += 1;
        }
        self.register.pc = self.register.pc.wrapping_sub(2);
        Event::AwaitingKey
    }

    /// `DRW Vx, Vy, rows`: draws the sprite held in the `rows` bytes at I at
    /// the position given by registers `x` and `y`, and sets VF to whether
    /// it collided. If the sprite does not lie inside memory it is a fault,
    /// and nothing changes.
    fn draw_sprite(&mut self, x: usize, y: usize, rows: u16) -> (shown: Result<(), Fault>)
        requires
            old(self).wf(),
            x < 16,
            y < 16,
        ensures
            final(self).wf(),
            old(self)@.i + rows <= 4096 ==> shown == Ok::<(), Fault>(()) && final(self)@ == old(
                self,
            )@.draw(x as int, y as int, rows as int),
            old(self)@.i + rows > 4096 ==> shown == Err::<(), Fault>(
                Fault::OutOfBoundsMemoryAccess,
            ) && final(self)@ == old(self)@,
    {
        let start: usize = self.register.i as usize;
        let end: usize = start + rows as usize;
        if end > MEMORY_SIZE {
            return Err(Fault::OutOfBoundsMemoryAccess);
        }
        let sprite = slice_subrange(self.memory.data.as_slice(), start, end);
        let collision = self.display.draw(
            self.register.v[x] as usize,
            self.register.v[y] as usize,
            sprite,
        );
        self.register.v[0xf] = if collision {
            1
        } else {
            0
        };
        Ok(())
    }
    /// Executes one decoded instruction on a machine whose program counter
    /// is already past it. `random` is the byte that `RND` masks; no other
    /// instruction looks at it. A fault leaves the machine as it was.
    pub fn execute(&mut self, instruction: Instruction, random: u8) -> (result: Result<
        Event,
        Fault,
    >)
        requires
            old(self).wf(),
            instruction.wf(),
        ensures
            final(self).wf(),
            (Step { machine: final(self)@, result }) == old(self)@.executed(instruction, random),
    {
        let outcome: Result<(), Fault> = match instruction {
            Instruction::ClearScreen => {
                self.display.clear();
                Ok(())
            },
            Instruction::Return => self.ret(),
            Instruction::Jump { addr } => {
                self.register.pc = addr;
                Ok(())
            },
            Instruction::Call { addr } => self.call(addr),
            Instruction::SkipIfByte { x, byte } => {
                self.skip_if_equal(x, byte);
                Ok(())
            },
            Instruction::SkipUnlessByte { x, byte } => {
                self.skip_if_not_equal(x, byte);
                Ok(())
            },
            Instruction::SkipIfSame { x, y } => {
                let value: u8 = self.register.v[y];
                self.skip_if_equal(x, value);
                Ok(())
            },
            Instruction::SkipUnlessSame { x, y } => {
                let value: u8 = self.register.v[y];
                self.skip_if_not_equal(x, value);
                Ok(())
            },
            Instruction::SetIndex { addr } => {
                self.register.i = addr;
                Ok(())
            },
            Instruction::JumpOffset { addr } => {
                self.register.pc = (self.register.v[0x0] as u16).wrapping_add(addr);
                Ok(())
            },
            Instruction::Draw { x, y, rows } => self.draw_sprite(x, y, rows),
            Instruction::SkipIfKey { x } => self.skip_if_pressed(x),
            Instruction::SkipUnlessKey { x } => self.skip_if_not_pressed(x),
            Instruction::WaitKey { x } => {
                return Ok(self.wait_key(x));
            },
            Instruction::SetDelay { x } => {
                self.register.delay = self.register.v[x];
                Ok(())
            },
            Instruction::SetSound { x } => {
                self.register.sound = self.register.v[x];
                Ok(())
            },
            Instruction::AddIndex { x } => {
                self.add_index(x);
                Ok(())
            },
            Instruction::Glyph { x } => self.glyph(x),
            Instruction::Bcd { x } => self.save_bcd(x),
            Instruction::Save { x } => self.save_register(x),
            Instruction::Restore { x } => self.load_register(x),
            Instruction::Unknown { opcode } => {
                return Ok(Event::UnknownOpcode(opcode));
            },
            _ => {
                self.compute(instruction, random);
                Ok(())
            },
        };
        match outcome {
            Ok(()) => Ok(Event::Completed),
            Err(fault) => Err(fault),
        }
    }

    /// Executes one of the instructions that only compute a new value for
    /// register Vx (and, for some, the flag).
    fn compute(&mut self, instruction: Instruction, random: u8)
        requires
            old(self).wf(),
            instruction.wf(),
            instruction is SetByte || instruction is AddByte || instruction is Assign
                || instruction is Or || instruction is And || instruction is Xor
                || instruction is Add || instruction is Sub || instruction is ShiftRight
                || instruction is SubFrom || instruction is ShiftLeft || instruction is Random
                || instruction is ReadDelay,
        ensures
            final(self).wf(),
            final(self)@.done() == old(self)@.executed(instruction, random),
    {
        match instruction {
            Instruction::SetByte { x, byte } => {
                self.register.v[x] = byte;
            },
            Instruction::AddByte { x, byte } => {
                self.register.v[x] = self.register.v[x].wrapping_add(byte);
            },
            Instruction::Assign { x, y } => {
                self.register.v[x] = self.register.v[y];
            },
            Instruction::Or { x, y } => {
                self.register.v[x] = self.register.v[x] | self.register.v[y];
            },
            Instruction::And { x, y } => {
                self.register.v[x] = self.register.v[x] & self.register.v[y];
            },
            Instruction::Xor { x, y } => {
                self.register.v[x] = self.register.v[x] ^ self.register.v[y];
            },
            Instruction::Add { x, y } => {
                let sum: u8 = self.add(self.register.v[x], self.register.v[y]);
                self.register.v[x] = sum;
            },
            Instruction::Sub { x, y } => {
                let difference: u8 = self.sub(self.register.v[x], self.register.v[y]);
                self.register.v[x] = difference;
            },
            Instruction::ShiftRight { x } => {
                self.shift_right(x);
            },
            Instruction::SubFrom { x, y } => {
                let difference: u8 = self.sub(self.register.v[y], self.register.v[x]);
                self.register.v[x] = difference;
            },
            Instruction::ShiftLeft { x } => {
                self.shift_left(x);
            },
            Instruction::Random { x, byte } => {
                self.random(x, byte, random);
            },
            Instruction::ReadDelay { x } => {
                self.register.v[x] = self.register.delay;
            },
            _ => {},
        }
    }

    /// `ADD I, Vx`: VF tells whether I plus register `idx` leaves the
    /// 12-bit range, then I takes the sum and keeps all 16 bits of it.
    fn add_index(&mut self, idx: usize)
        requires
            old(self).wf(),
            idx < 16,
        ensures
            final(self)@ == old(self)@.add_index(idx as int),
    {
        self.register.v[0xf] = if self.register.v[idx] as u32 + self.register.i as u32 > 0xfff {
            1
        } else {
            0
        };
        self.register.i = self.register.i.wrapping_add(self.register.v[idx] as u16);
    }

    /// `LD F, Vx`: points I at the sprite of the digit held in register
    /// `idx`. A register that holds no digit is a fault, and nothing
    /// changes.
    fn glyph(&mut self, idx: usize) -> (found: Result<(), Fault>)
        requires
            old(self).wf(),
            idx < 16,
        ensures
            final(self).wf(),
            old(self)@.v[idx as int] < 16 ==> found == Ok::<(), Fault>(()) && final(self)@ == old(
                self,
            )@.with_i(glyph_address(old(self)@.v[idx as int] as int) as u16),
            old(self)@.v[idx as int] >= 16 ==> found == Err::<(), Fault>(
                Fault::OutOfBoundsMemoryAccess,
            ) && final(self)@ == old(self)@,
    {
        let digit: u8 = self.register.v[idx];
        if digit >= 16 {
            return Err(Fault::OutOfBoundsMemoryAccess);
        }
        self.register.i = GLYPH_ROWS * (digit as u16);
        Ok(())
    }

    /// Runs one cycle: fetches the word at the program counter, moves the
    /// program counter past it, decodes the word and executes it. `RND`
    /// draws its byte from the thread's random number generator, so the
    /// cycle ends as `cycle` says for some byte; every other instruction
    /// ends as `cycle` says whatever the byte.
    pub fn next(&mut self) -> (result: Result<Event, Fault>)
        requires
            old(self).wf(),
        ensures
            final(self).wf(),
            exists|random: u8|
                (Step { machine: final(self)@, result }) == #[trigger] old(self)@.cycle(random),
            !(old(self)@.can_fetch() && decoded(old(self)@.opcode()) is Random) ==> (Step {
                machine: final(self)@,
                result,
            }) == old(self)@.cycle(0),
    {
        let opcode: u16 = match self.get_next_u16() {
            Ok(opcode) => opcode,
            Err(fault) => {
                assert((Step { machine: self@, result: Err(fault) }) == old(self)@.cycle(0));
                return Err(fault);
            },
        };
        let instruction = decode(opcode);
        let random: u8 = match instruction {
            Instruction::Random { .. } => random_byte(),
            _ => 0,
        };
        let result = self.execute(instruction, random);
        assert((Step { machine: self@, result }) == old(self)@.cycle(random));
        result
    }
}

/// Draws a byte from `rand::thread_rng()` with `Rng::gen_range(0, 256)`.
/// Nothing is claimed of the byte: any value of the type can come back, and
/// two calls need not agree. The generator seeds itself from the operating
/// system the first time a thread uses it, and panics if that fails.
#[verifier::external_body]
fn random_byte() -> u8 {
    rand::thread_rng().gen_range(0, 256) as u8
}

} // verus!
