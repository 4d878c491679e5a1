//! Properties of the instruction set, proved of the model in `machine`.
//!
//! Each law speaks of a whole cycle of a valid machine `m` whose program
//! counter stands on a given instruction word. The flag register VF is an
//! ordinary register too, so an instruction that names it as Vx writes its
//! result over the flag; the laws about the flag leave that case out.

use vstd::prelude::*;
use vstd::arithmetic::div_mod::{
    lemma_fundamental_div_mod_converse_div, lemma_fundamental_div_mod_converse_mod,
};
use crate::instruction::{
    decoded, family, field_addr, field_byte, field_nibble, field_x, field_y, Instruction,
};
use crate::font::{glyph_address, DIGITS};
use crate::machine::{any_down, image, is_lowest_down, lowest_down, Machine, Step};
use crate::memory::word;
use crate::outcome::{Event, Fault};

verus! {

/// The word that carries `family` in its top four bits, then `x`, then
/// `byte`.
pub open spec fn encode_xkk(family: int, x: int, byte: int) -> int {
    family * 4096 + x * 256 + byte
}

/// The word that carries `family` in its top four bits, then `x`, `y` and
/// `nibble`.
pub open spec fn encode_xyn(family: int, x: int, y: int, nibble: int) -> int {
    family * 4096 + x * 256 + y * 16 + nibble
}

/// The fields of an encoded word are the numbers it was made of.
pub proof fn lemma_fields(f: int, x: int, y: int, n: int)
    requires
        0 <= f < 16,
        0 <= x < 16,
        0 <= y < 16,
        0 <= n < 16,
    ensures
        ({
            let w = encode_xyn(f, x, y, n) as u16;
            &&& w == encode_xyn(f, x, y, n)
            &&& family(w) == f
            &&& field_x(w) == x
            &&& field_y(w) == y
            &&& field_nibble(w) == n
            &&& field_byte(w) == 16 * y + n
            &&& field_addr(w) == 256 * x + 16 * y + n
        }),
{
    let r1 = x * 256 + y * 16 + n;
    let r2 = y * 16 + n;
    let w = encode_xyn(f, x, y, n);
    lemma_fundamental_div_mod_converse_div(w, 4096, f, r1);
    lemma_fundamental_div_mod_converse_mod(w, 4096, f, r1);
    lemma_fundamental_div_mod_converse_div(w, 256, f * 16 + x, r2);
    lemma_fundamental_div_mod_converse_mod(w, 256, f * 16 + x, r2);
    lemma_fundamental_div_mod_converse_mod(f * 16 + x, 16, f, x);
    lemma_fundamental_div_mod_converse_div(w, 16, f * 256 + x * 16 + y, n);
    lemma_fundamental_div_mod_converse_mod(w, 16, f * 256 + x * 16 + y, n);
    lemma_fundamental_div_mod_converse_mod(f * 256 + x * 16 + y, 16, f * 16 + x, y);
}

/// Fetching a word that lies inside memory moves the program counter up by
/// exactly two: it cannot wrap.
pub proof fn lemma_fetch_advances(m: Machine)
    requires
        m.valid(),
        m.can_fetch(),
    ensures
        m.skip().pc == m.pc + 2,
        m.skip() == m.with_pc((m.pc + 2) as u16),
{
}

/// `7xkk` leaves in Vx the sum of Vx and kk modulo 256 and touches nothing
/// else but the program counter.
pub proof fn lemma_add_byte_wraps(m: Machine, x: int, kk: u8, random: u8)
    requires
        m.valid(),
        m.can_fetch(),
        0 <= x < 16,
        m.opcode() == encode_xkk(7, x, kk as int),
    ensures
        m.cycle(random) == m.skip().with_v(x, ((m.v[x] + kk) % 256) as u8).done(),
        m.cycle(random).machine.v[x] == (m.v[x] + kk) % 256,
{
    lemma_fields(7, x, kk as int / 16, kk as int % 16);
    assert(decoded(m.opcode()) == Instruction::AddByte { x: x as usize, byte: kk });
}

/// `7xkk` never changes VF, unless VF is the register it adds to.
pub proof fn lemma_add_byte_keeps_flag(m: Machine, x: int, kk: u8, random: u8)
    requires
        m.valid(),
        m.can_fetch(),
        0 <= x < 15,
        m.opcode() == encode_xkk(7, x, kk as int),
    ensures
        m.cycle(random).machine.v[0xf] == m.v[0xf],
{
    lemma_add_byte_wraps(m, x, kk, random);
}

/// `8xy4` leaves in Vx the sum of Vx and Vy modulo 256, and sets VF to 1 if
/// the sum exceeds 255 and to 0 if it does not.
pub proof fn lemma_add_carry(m: Machine, x: int, y: int, random: u8)
    requires
        m.valid(),
        m.can_fetch(),
        0 <= x < 15,
        0 <= y < 16,
        m.opcode() == encode_xyn(8, x, y, 4),
    ensures
        m.cycle(random).result == Ok::<Event, Fault>(Event::Completed),
        m.cycle(random).machine.v[x] == (m.v[x] + m.v[y]) % 256,
        m.cycle(random).machine.v[0xf] == 1 <==> m.v[x] + m.v[y] > 255,
        m.cycle(random).machine.v[0xf] == 0 <==> m.v[x] + m.v[y] <= 255,
{
    lemma_fields(8, x, y, 4);
    assert(decoded(m.opcode()) == Instruction::Add { x: x as usize, y: y as usize });
    assert(m.cycle(random) == m.skip().add(x, y).done());
}

/// `8xy5` leaves in Vx the difference Vx - Vy modulo 256, and sets VF to 1
/// if Vx was greater than Vy and to 0 if it was not.
pub proof fn lemma_sub_no_borrow(m: Machine, x: int, y: int, random: u8)
    requires
        m.valid(),
        m.can_fetch(),
        0 <= x < 15,
        0 <= y < 16,
        m.opcode() == encode_xyn(8, x, y, 5),
    ensures
        m.cycle(random).result == Ok::<Event, Fault>(Event::Completed),
        m.cycle(random).machine.v[x] == (m.v[x] - m.v[y]) % 256,
        m.cycle(random).machine.v[0xf] == 1 <==> m.v[x] > m.v[y],
        m.cycle(random).machine.v[0xf] == 0 <==> m.v[x] <= m.v[y],
{
    lemma_fields(8, x, y, 5);
    assert(decoded(m.opcode()) == Instruction::Sub { x: x as usize, y: y as usize });
    assert(m.cycle(random) == m.skip().sub(x, m.v[x], m.v[y]).done());
}

/// `8xy7` leaves in Vx the difference Vy - Vx modulo 256, and sets VF to 1
/// if Vy was greater than Vx and to 0 if it was not.
pub proof fn lemma_sub_from_no_borrow(m: Machine, x: int, y: int, random: u8)
    requires
        m.valid(),
        m.can_fetch(),
        0 <= x < 15,
        0 <= y < 16,
        m.opcode() == encode_xyn(8, x, y, 7),
    ensures
        m.cycle(random).result == Ok::<Event, Fault>(Event::Completed),
        m.cycle(random).machine.v[x] == (m.v[y] - m.v[x]) % 256,
        m.cycle(random).machine.v[0xf] == 1 <==> m.v[y] > m.v[x],
        m.cycle(random).machine.v[0xf] == 0 <==> m.v[y] <= m.v[x],
{
    lemma_fields(8, x, y, 7);
    assert(decoded(m.opcode()) == Instruction::SubFrom { x: x as usize, y: y as usize });
    assert(m.cycle(random) == m.skip().sub(x, m.v[y], m.v[x]).done());
}

/// `8xy6` halves Vx, rounding down, and leaves in VF the bit that fell off:
/// the lowest bit that Vx had before.
pub proof fn lemma_shift_right(m: Machine, x: int, y: int, random: u8)
    requires
        m.valid(),
        m.can_fetch(),
        0 <= x < 15,
        0 <= y < 16,
        m.opcode() == encode_xyn(8, x, y, 6),
    ensures
        m.cycle(random).result == Ok::<Event, Fault>(Event::Completed),
        m.cycle(random).machine.v[x] == m.v[x] / 2,
        m.cycle(random).machine.v[0xf] == m.v[x] % 2,
        m.v[x] == 2 * m.cycle(random).machine.v[x] + m.cycle(random).machine.v[0xf],
{
    lemma_fields(8, x, y, 6);
    assert(decoded(m.opcode()) == Instruction::ShiftRight { x: x as usize });
    assert(m.cycle(random) == m.skip().shift_right(x).done());
}

/// `8xyE` doubles Vx modulo 256 and leaves in VF the bit that fell off: the
/// highest bit that Vx had before.
pub proof fn lemma_shift_left(m: Machine, x: int, y: int, random: u8)
    requires
        m.valid(),
        m.can_fetch(),
        0 <= x < 15,
        0 <= y < 16,
        m.opcode() == encode_xyn(8, x, y, 0xe),
    ensures
        m.cycle(random).result == Ok::<Event, Fault>(Event::Completed),
        m.cycle(random).machine.v[x] == (m.v[x] * 2) % 256,
        m.cycle(random).machine.v[0xf] == m.v[x] / 128,
        2 * m.v[x] == 256 * m.cycle(random).machine.v[0xf] + m.cycle(random).machine.v[x],
{
    lemma_fields(8, x, y, 0xe);
    assert(decoded(m.opcode()) == Instruction::ShiftLeft { x: x as usize });
    assert(m.cycle(random) == m.skip().shift_left(x).done());
}

/// A `CALL nnn` that lands on a `RET` comes back: after the two cycles the
/// program counter stands on the instruction that follows the call, and the
/// rest of the machine, call stack included, is as it was.
pub proof fn lemma_call_then_return(m: Machine, nnn: int, first: u8, second: u8)
    requires
        m.valid(),
        m.can_fetch(),
        m.stack.len() < 16,
        0 <= nnn < 4095,
        m.opcode() == 0x2000 + nnn,
        word(m.memory[nnn], m.memory[nnn + 1]) == 0x00ee,
    ensures
        m.cycle(first).machine.pc == nnn,
        m.cycle(first).machine.cycle(second) == m.with_pc((m.pc + 2) as u16).done(),
{
    let called = m.cycle(first).machine;
    assert(called == m.skip().call(nnn as u16));
    assert(called.opcode() == 0x00ee);
    assert(called.stack.drop_last() =~= m.stack);
    assert(called.cycle(second).machine =~= m.with_pc((m.pc + 2) as u16));
}

/// While no key is down, a cycle on `Fx0A` changes nothing at all: the
/// program counter still stands on the instruction and Vx holds what it
/// held. So however many cycles run before a key goes down, the machine
/// stays put.
pub proof fn lemma_wait_key_holds(m: Machine, x: int, random: u8)
    requires
        m.valid(),
        m.can_fetch(),
        0 <= x < 16,
        m.opcode() == encode_xkk(0xf, x, 0x0a),
        !any_down(m.keys),
    ensures
        m.cycle(random) == (Step { machine: m, result: Ok(Event::AwaitingKey) }),
{
    assert(m.skip().rewind() =~= m);
}

/// With a key down, a cycle on `Fx0A` stores in Vx the lowest-numbered key
/// that is down and moves on to the next instruction.
pub proof fn lemma_wait_key_takes_lowest(m: Machine, x: int, key: int, random: u8)
    requires
        m.valid(),
        m.can_fetch(),
        0 <= x < 16,
        m.opcode() == encode_xkk(0xf, x, 0x0a),
        is_lowest_down(m.keys, key),
    ensures
        m.cycle(random) == m.with_pc((m.pc + 2) as u16).with_v(x, key as u8).done(),
{
    lemma_lowest_down(m.keys, key);
}

/// The lowest key that is down is the only one that `is_lowest_down` holds
/// of.
pub proof fn lemma_lowest_down(keys: Seq<bool>, key: int)
    requires
        is_lowest_down(keys, key),
    ensures
        any_down(keys),
        lowest_down(keys) == key,
{
    let chosen = lowest_down(keys);
    assert(is_lowest_down(keys, chosen));
    if chosen < key {
        assert(!keys[chosen]);
    }
    if key < chosen {
        assert(!keys[key]);
    }
}

/// A word that encodes no instruction is stepped over: the program counter
/// moves up by two, nothing else changes, the cycle reports the word once,
/// and the machine can go on.
pub proof fn lemma_unknown_opcode_is_skipped(m: Machine, random: u8)
    requires
        m.valid(),
        m.can_fetch(),
        decoded(m.opcode()) is Unknown,
    ensures
        m.cycle(random) == (Step {
            machine: m.with_pc((m.pc + 2) as u16),
            result: Ok(Event::UnknownOpcode(m.opcode())),
        }),
        m.cycle(random).machine.valid(),
{
}

/// Only `Cxkk` depends on the random byte.
pub proof fn lemma_random_only_in_rnd(m: Machine, first: u8, second: u8)
    requires
        !(m.can_fetch() && decoded(m.opcode()) is Random),
    ensures
        m.cycle(first) == m.cycle(second),
{
}

/// `Fx33` stores three decimal digits that spell Vx.
pub proof fn lemma_bcd_spells_value(m: Machine, x: int, random: u8)
    requires
        m.valid(),
        m.can_fetch(),
        0 <= x < 16,
        m.opcode() == encode_xkk(0xf, x, 0x33),
        m.i + 2 < 4096,
    ensures
        ({
            let after = m.cycle(random).machine;
            let at = m.i as int;
            &&& after.memory[at] < 10
            &&& after.memory[at + 1] < 10
            &&& after.memory[at + 2] < 10
            &&& 100 * after.memory[at] + 10 * after.memory[at + 1] + after.memory[at + 2]
                == m.v[x]
        }),
{
    lemma_fields(0xf, x, 3, 3);
    assert(decoded(m.opcode()) == Instruction::Bcd { x: x as usize });
    assert(m.cycle(random) == m.skip().bcd(x).done());
    let value = m.v[x] as int;
    assert(100 * (value / 100) + 10 * ((value / 10) % 10) + value % 10 == value);
}

/// A timer tick never takes a timer below zero, and takes exactly one off a
/// timer that is running.
pub proof fn lemma_tick_floors(m: Machine)
    ensures
        m.tick().delay == if m.delay == 0 { 0int } else { m.delay - 1 },
        m.tick().sound == if m.sound == 0 { 0int } else { m.sound - 1 },
{
}

/// The machine after `n` cycles, the `k`-th of which draws the byte
/// `random(k)`.
pub open spec fn after_cycles(m: Machine, n: nat, random: spec_fn(nat) -> u8) -> Machine
    decreases n,
{
    if n == 0 {
        m
    } else {
        after_cycles(m, (n - 1) as nat, random).cycle(random((n - 1) as nat)).machine
    }
}

/// While no key is down, a machine that stands on `Fx0A` is the same after
/// any number of cycles: program counter, Vx and all.
pub proof fn lemma_wait_key_holds_forever(
    m: Machine,
    x: int,
    n: nat,
    random: spec_fn(nat) -> u8,
)
    requires
        m.valid(),
        m.can_fetch(),
        0 <= x < 16,
        m.opcode() == encode_xkk(0xf, x, 0x0a),
        !any_down(m.keys),
    ensures
        after_cycles(m, n, random) == m,
    decreases n,
{
    if n > 0 {
        lemma_wait_key_holds_forever(m, x, (n - 1) as nat, random);
        lemma_wait_key_holds(m, x, random((n - 1) as nat));
    }
}

/// `Fx29` points I at five times the digit in Vx, which is where the memory
/// image keeps that digit's sprite.
pub proof fn lemma_glyph_address(m: Machine, x: int, random: u8)
    requires
        m.valid(),
        m.can_fetch(),
        0 <= x < 16,
        m.opcode() == encode_xkk(0xf, x, 0x29),
        m.v[x] < 16,
    ensures
        m.cycle(random) == m.skip().with_i((5 * m.v[x]) as u16).done(),
        m.cycle(random).machine.i == 5 * m.v[x],
{
    lemma_fields(0xf, x, 2, 9);
    assert(decoded(m.opcode()) == Instruction::Glyph { x: x as usize });
}

/// The memory image holds row `row` of the sprite of `digit` at the glyph
/// address of that digit plus `row`, whatever the program.
pub proof fn lemma_image_holds_glyphs(rom: Seq<u8>, digit: int, row: int)
    requires
        0 <= digit < 16,
        0 <= row < 5,
    ensures
        image(rom)[glyph_address(digit) + row] == DIGITS[5 * digit + row],
{
}

/// The memory image holds the program from `0x200` on, byte for byte.
pub proof fn lemma_image_holds_program(rom: Seq<u8>, k: int)
    requires
        0 <= k < rom.len() <= 0xe00,
    ensures
        image(rom).len() == 4096,
        image(rom)[0x200 + k] == rom[k],
{
}

/// A machine fresh from `boot` is valid and can fetch its first word.
pub proof fn lemma_boot_is_valid(rom: Seq<u8>)
    ensures
        Machine::boot(rom).valid(),
        Machine::boot(rom).can_fetch(),
{
}

/// Executing an instruction keeps a valid machine valid, whether it ends
/// well or in a fault.
pub proof fn lemma_executed_stays_valid(m: Machine, instruction: Instruction, random: u8)
    requires
        m.valid(),
        instruction.wf(),
    ensures
        m.executed(instruction, random).machine.valid(),
{
}

/// A cycle keeps a valid machine valid, whether it ends well or in a fault.
pub proof fn lemma_cycle_stays_valid(m: Machine, random: u8)
    requires
        m.valid(),
    ensures
        m.cycle(random).machine.valid(),
{
    if m.can_fetch() {
        lemma_fields_in_range(m.opcode());
        lemma_executed_stays_valid(m.skip(), decoded(m.opcode()), random);
    }
}

/// Every word decodes to an instruction whose register operands name
/// registers.
pub proof fn lemma_fields_in_range(opcode: u16)
    ensures
        decoded(opcode).wf(),
{
}

} // verus!
