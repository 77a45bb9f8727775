//! Laws of the instruction set, proved from the model of the machine.

use vstd::prelude::*;
use crate::alu::{borrow_flag, carry_flag, difference_of, sum_of};
use crate::clock::{elapsed_seconds, nanos_between, timer_after, Tick};
use crate::decode::{address_of, nibble_at};
use crate::display::{blank_screen, collides, drawn, sprite_covers};
use crate::instruction::{decoded, well_formed, Instruction};
use crate::semantics::{
    advanced, applied, cycled, executed, fault_of, fetched, outcome_of, pressed, released, stepped,
    ticked, two_before,
};
use crate::state::MachineState;

verus! {

/// Every instruction word decodes to an instruction whose operands are in
/// range.
pub proof fn lemma_decoded_is_well_formed(opcode: u16)
    ensures
        well_formed(decoded(opcode)),
{
}

/// Executing an instruction, pressing or releasing a key, and letting the
/// timers decay all keep the shape of the machine.
pub proof fn lemma_shape_is_kept(
    s: MachineState,
    instruction: Instruction,
    random: u8,
    key: u8,
    now: Tick,
)
    requires
        s.wf(),
        key < 16,
    ensures
        executed(s, instruction, random).wf(),
        pressed(s, key).wf(),
        released(s, key).wf(),
        ticked(s, now).wf(),
{
}

/// The random byte matters to no instruction but the one that asks for it.
pub proof fn lemma_random_byte_is_used_once(
    s: MachineState,
    instruction: Instruction,
    first: u8,
    second: u8,
)
    requires
        !(instruction is Random),
    ensures
        executed(s, instruction, first) == executed(s, instruction, second),
{
}

/// A step is decided by the state and the clock alone, unless the word it
/// fetches asks for a random number.
pub proof fn lemma_step_without_random(s: MachineState, first: u8, second: u8, now: Tick)
    requires
        fetched(s) matches Some(opcode) ==> nibble_at(opcode, 3) != 0xc,
    ensures
        cycled(s, first) == cycled(s, second),
        stepped(s, first, now) == stepped(s, second, now),
{
}

/// Where a jump or call word sends a running machine: to the address in
/// its low twelve bits, to which the family 0xB adds the value of
/// register 0.
pub open spec fn jump_target(s: MachineState, opcode: u16) -> int {
    if nibble_at(opcode, 3) == 0xb {
        address_of(opcode) + s.registers[0]
    } else {
        address_of(opcode) as int
    }
}

/// A jump, a call and an offset jump leave the program counter two bytes
/// short of the target, so that the advance which follows every
/// instruction lands exactly on it. A call also remembers where it came
/// from.
pub proof fn lemma_jump_lands_on_target(s: MachineState, opcode: u16, random: u8)
    requires
        s.wf(),
        !s.locked,
        nibble_at(opcode, 3) == 0x1 || nibble_at(opcode, 3) == 0x2 || nibble_at(opcode, 3) == 0xb,
    ensures
        applied(s, decoded(opcode), random).pc == two_before(jump_target(s, opcode) as u16),
        executed(s, decoded(opcode), random).pc == jump_target(s, opcode),
        nibble_at(opcode, 3) == 0x2 ==> executed(s, decoded(opcode), random).stack == s.stack.push(
            s.pc,
        ),
        nibble_at(opcode, 3) != 0x2 ==> executed(s, decoded(opcode), random).stack == s.stack,
{
}

/// Eight-bit addition keeps the sum modulo 256 and sets the flag exactly
/// when the true sum does not fit in eight bits.
pub proof fn lemma_add_reports_carry(a: u8, b: u8)
    ensures
        sum_of(a, b) == (a + b) % 256,
        carry_flag(a, b) == 1 <==> a + b >= 256,
        carry_flag(a, b) == 0 <==> a + b < 256,
{
}

/// The add instruction leaves the sum modulo 256 in register X and, unless
/// X is the flag register itself, the carry in the flag register.
pub proof fn lemma_add_instruction(s: MachineState, opcode: u16, random: u8)
    requires
        s.wf(),
        !s.locked,
        nibble_at(opcode, 3) == 0x8,
        nibble_at(opcode, 0) == 0x4,
    ensures
        ({
            let x = nibble_at(opcode, 2);
            let y = nibble_at(opcode, 1);
            let after = executed(s, decoded(opcode), random);
            &&& after.registers[x] == (s.registers[x] + s.registers[y]) % 256
            &&& x != 15 ==> (after.registers[15] == 1 <==> s.registers[x] + s.registers[y] >= 256)
            &&& x != 15 ==> (after.registers[15] == 0 <==> s.registers[x] + s.registers[y] < 256)
            &&& forall|other: int|
                0 <= other < 15 && other != x ==> after.registers[other] == s.registers[other]
        }),
{
}

/// Eight-bit subtraction keeps the difference modulo 256. Its flag is set
/// exactly when the difference is below the minuend, which is the case
/// exactly when something was subtracted and nothing was borrowed.
pub proof fn lemma_subtract_reports_shrinking(a: u8, b: u8)
    ensures
        difference_of(a, b) == (a - b) % 256,
        borrow_flag(a, b) == 1 <==> difference_of(a, b) < a,
        borrow_flag(a, b) == 1 <==> 0 < b <= a,
        borrow_flag(a, b) == 0 <==> !(0 < b <= a),
{
}

/// The flag of a subtraction agrees with the comparison `a < b` on the
/// pairs with nothing to subtract, and on no others.
pub proof fn lemma_subtract_flag_against_borrow(a: u8, b: u8)
    ensures
        (borrow_flag(a, b) == 1 <==> a < b) <==> b == 0,
{
}

/// The subtract instruction leaves the difference modulo 256 in register X
/// and, unless X is the flag register itself, sets the flag exactly when
/// the difference is below the old value of X.
pub proof fn lemma_subtract_instruction(s: MachineState, opcode: u16, random: u8)
    requires
        s.wf(),
        !s.locked,
        nibble_at(opcode, 3) == 0x8,
        nibble_at(opcode, 0) == 0x5,
    ensures
        ({
            let x = nibble_at(opcode, 2);
            let y = nibble_at(opcode, 1);
            let after = executed(s, decoded(opcode), random);
            &&& after.registers[x] == (s.registers[x] - s.registers[y]) % 256
            &&& x != 15 ==> (after.registers[15] == 1 <==> (s.registers[x] - s.registers[y]) % 256
                < s.registers[x])
            &&& x != 15 ==> (after.registers[15] == 1 || after.registers[15] == 0)
            &&& forall|other: int|
                0 <= other < 15 && other != x ==> after.registers[other] == s.registers[other]
        }),
{
}

/// Both shift instructions halve register X and, unless X is the flag
/// register itself, leave the bit that was shifted out in the flag register.
pub proof fn lemma_shift_instruction(s: MachineState, opcode: u16, random: u8)
    requires
        s.wf(),
        !s.locked,
        nibble_at(opcode, 3) == 0x8,
        nibble_at(opcode, 0) == 0x6 || nibble_at(opcode, 0) == 0xe,
    ensures
        ({
            let x = nibble_at(opcode, 2);
            let after = executed(s, decoded(opcode), random);
            &&& after.registers[x] == s.registers[x] / 2
            &&& x != 15 ==> after.registers[15] == s.registers[x] % 2
            &&& forall|other: int|
                0 <= other < 15 && other != x ==> after.registers[other] == s.registers[other]
        }),
{
}

/// The reversed subtract instruction leaves register Y minus register X,
/// modulo 256, in register X and, unless X is the flag register itself,
/// sets the flag exactly when Y was the greater.
pub proof fn lemma_subtract_from_instruction(s: MachineState, opcode: u16, random: u8)
    requires
        s.wf(),
        !s.locked,
        nibble_at(opcode, 3) == 0x8,
        nibble_at(opcode, 0) == 0x7,
    ensures
        ({
            let x = nibble_at(opcode, 2);
            let y = nibble_at(opcode, 1);
            let after = executed(s, decoded(opcode), random);
            &&& after.registers[x] == (s.registers[y] - s.registers[x]) % 256
            &&& x != 15 ==> (after.registers[15] == 1 <==> s.registers[y] > s.registers[x])
            &&& x != 15 ==> (after.registers[15] == 0 <==> s.registers[y] <= s.registers[x])
            &&& forall|other: int|
                0 <= other < 15 && other != x ==> after.registers[other] == s.registers[other]
        }),
{
}

/// The screen keeps its pixels until an instruction clears it or draws on
/// it: no other instruction, no key and no tick of the clock changes it.
pub proof fn lemma_screen_persists(
    s: MachineState,
    instruction: Instruction,
    random: u8,
    key: u8,
    now: Tick,
)
    ensures
        !(instruction is ClearScreen) && !(instruction is Draw) ==> executed(
            s,
            instruction,
            random,
        ).screen == s.screen,
        pressed(s, key).screen == s.screen,
        released(s, key).screen == s.screen,
        ticked(s, now).screen == s.screen,
{
}

/// Drawing a sprite twice in the same place puts every pixel back, and the
/// second drawing collides exactly when the sprite covers a pixel that was
/// lit before it, which is one that was dark before the first.
pub proof fn lemma_draw_twice_restores(
    screen: Seq<bool>,
    memory: Seq<u8>,
    index: int,
    height: int,
    x: int,
    y: int,
)
    requires
        screen.len() == 2048,
    ensures
        ({
            let once = drawn(screen, memory, index, height, x, y);
            let twice = drawn(once, memory, index, height, x, y);
            &&& twice == screen
            &&& collides(once, memory, index, height, x, y) <==> exists|cell: int|
                0 <= cell < 2048 && once[cell] && #[trigger] sprite_covers(
                    memory,
                    index,
                    height,
                    x,
                    y,
                    cell % 64,
                    cell / 64,
                )
            &&& collides(once, memory, index, height, x, y) <==> exists|cell: int|
                0 <= cell < 2048 && !screen[cell] && #[trigger] sprite_covers(
                    memory,
                    index,
                    height,
                    x,
                    y,
                    cell % 64,
                    cell / 64,
                )
        }),
{
    let once = drawn(screen, memory, index, height, x, y);
    let twice = drawn(once, memory, index, height, x, y);
    assert(twice =~= screen);
    if collides(once, memory, index, height, x, y) {
        let cell = choose|cell: int|
            0 <= cell < 2048 && once[cell] && #[trigger] sprite_covers(
                memory,
                index,
                height,
                x,
                y,
                cell % 64,
                cell / 64,
            );
        assert(!screen[cell]);
    }
    if exists|cell: int|
        0 <= cell < 2048 && !screen[cell] && #[trigger] sprite_covers(
            memory,
            index,
            height,
            x,
            y,
            cell % 64,
            cell / 64,
        ) {
        let cell = choose|cell: int|
            0 <= cell < 2048 && !screen[cell] && #[trigger] sprite_covers(
                memory,
                index,
                height,
                x,
                y,
                cell % 64,
                cell / 64,
            );
        assert(once[cell]);
    }
}

/// Executing the same draw instruction twice puts the screen back, and the
/// flag after the second execution is 1 exactly when the sprite covered a
/// pixel that was lit before it, else 0. The position registers must not
/// be the flag register, which the first drawing overwrites.
pub proof fn lemma_draw_instruction_twice(s: MachineState, opcode: u16, first: u8, second: u8)
    requires
        s.wf(),
        !s.locked,
        nibble_at(opcode, 3) == 0xd,
        nibble_at(opcode, 2) != 15,
        nibble_at(opcode, 1) != 15,
        s.index + nibble_at(opcode, 0) <= 4096,
    ensures
        ({
            let x = s.registers[nibble_at(opcode, 2)] as int;
            let y = s.registers[nibble_at(opcode, 1)] as int;
            let height = nibble_at(opcode, 0);
            let once = executed(s, decoded(opcode), first);
            let twice = executed(once, decoded(opcode), second);
            &&& once.screen == drawn(s.screen, s.memory, s.index as int, height, x, y)
            &&& twice.screen == s.screen
            &&& twice.registers[15] == 1 <==> (exists|cell: int|
                0 <= cell < 2048 && once.screen[cell] && #[trigger] sprite_covers(
                    s.memory,
                    s.index as int,
                    height,
                    x,
                    y,
                    cell % 64,
                    cell / 64,
                ))
            &&& twice.registers[15] == 1 || twice.registers[15] == 0
        }),
{
    let x = s.registers[nibble_at(opcode, 2)] as int;
    let y = s.registers[nibble_at(opcode, 1)] as int;
    let height = nibble_at(opcode, 0);
    let once = executed(s, decoded(opcode), first);
    assert(once.registers[nibble_at(opcode, 2)] == x);
    assert(once.registers[nibble_at(opcode, 1)] == y);
    assert(fault_of(once, decoded(opcode)) is None);
    lemma_draw_twice_restores(s.screen, s.memory, s.index as int, height, x, y);
}

/// The words of family 0 whose low nibble is 0 turn every pixel off and
/// touch nothing else but the program counter.
pub proof fn lemma_clear_screen(s: MachineState, opcode: u16, random: u8)
    requires
        s.wf(),
        !s.locked,
        nibble_at(opcode, 3) == 0x0,
        nibble_at(opcode, 0) == 0x0,
    ensures
        executed(s, decoded(opcode), random) == (MachineState {
            screen: blank_screen(),
            pc: executed(s, decoded(opcode), random).pc,
            ..s
        }),
        forall|cell: int| 0 <= cell < 2048 ==> !executed(s, decoded(opcode), random).screen[cell],
{
}

/// A step that fetches such a word leaves every pixel off.
pub proof fn lemma_step_clears_screen(s: MachineState, random: u8, now: Tick)
    requires
        s.wf(),
        !s.locked,
        fetched(s) matches Some(opcode) && nibble_at(opcode, 3) == 0x0 && nibble_at(opcode, 0)
            == 0x0,
    ensures
        stepped(s, random, now).screen == blank_screen(),
        forall|cell: int| 0 <= cell < 2048 ==> !stepped(s, random, now).screen[cell],
{
}

/// An instruction that is unknown or meets a fault is passed over: the
/// program counter moves on and nothing else changes.
pub proof fn lemma_passed_over(s: MachineState, instruction: Instruction, random: u8)
    requires
        outcome_of(s, instruction) is Unknown || outcome_of(s, instruction) is Fault,
    ensures
        executed(s, instruction, random) == advanced(s),
{
}

/// Whole seconds are what the timers count. After a second and a half a
/// timer has lost one unit, unless it had none to lose; after three hundred
/// seconds it is at zero whatever it held.
pub proof fn lemma_timers_count_whole_seconds(s: MachineState, now: Tick)
    ensures
        nanos_between(s.last_tick, now) == 1_500_000_000 ==> {
            &&& elapsed_seconds(s.last_tick, now) == 1
            &&& ticked(s, now).delay == if s.delay > 0 {
                s.delay - 1
            } else {
                0
            }
            &&& ticked(s, now).sound == if s.sound > 0 {
                s.sound - 1
            } else {
                0
            }
            &&& ticked(s, now).last_tick == now
        },
        nanos_between(s.last_tick, now) == 300_000_000_000 ==> {
            &&& ticked(s, now).delay == 0
            &&& ticked(s, now).sound == 0
            &&& ticked(s, now).last_tick == now
        },
        nanos_between(s.last_tick, now) < 1_000_000_000 ==> ticked(s, now) == s,
{
}

/// In one step the timers decay after the instruction has run: they lose
/// the whole seconds elapsed, counted from what the instruction left in
/// them.
pub proof fn lemma_step_decays_timers(s: MachineState, random: u8, now: Tick)
    ensures
        stepped(s, random, now).delay == timer_after(
            cycled(s, random).delay,
            elapsed_seconds(s.last_tick, now),
        ),
        stepped(s, random, now).sound == timer_after(
            cycled(s, random).sound,
            elapsed_seconds(s.last_tick, now),
        ),
        stepped(s, random, now).pc == cycled(s, random).pc,
        stepped(s, random, now).registers == cycled(s, random).registers,
        stepped(s, random, now).memory == cycled(s, random).memory,
        stepped(s, random, now).screen == cycled(s, random).screen,
{
    assert(cycled(s, random).last_tick == s.last_tick);
}

/// A word of family 0xF whose low nibble is 0xA suspends the machine with
/// register X as the target. From then on executing an instruction or
/// running a cycle changes nothing, so the program counter stands still.
/// The next key pressed is written to the target register and the machine
/// runs again.
pub proof fn lemma_wait_for_key(
    s: MachineState,
    opcode: u16,
    random: u8,
    next: Instruction,
    later: u8,
    key: u8,
)
    requires
        s.wf(),
        !s.locked,
        nibble_at(opcode, 3) == 0xf,
        nibble_at(opcode, 0) == 0xa,
        key < 16,
    ensures
        ({
            let waiting = executed(s, decoded(opcode), random);
            &&& waiting.locked
            &&& waiting.locked_register == nibble_at(opcode, 2)
            &&& executed(waiting, next, later) == waiting
            &&& cycled(waiting, later) == waiting
            &&& !pressed(waiting, key).locked
            &&& pressed(waiting, key).registers == waiting.registers.update(
                nibble_at(opcode, 2),
                key,
            )
            &&& pressed(waiting, key).pc == waiting.pc
        }),
{
}

/// Releasing a key never wakes a machine that waits for one.
pub proof fn lemma_release_keeps_waiting(s: MachineState, key: u8)
    ensures
        released(s, key).locked == s.locked,
        released(s, key).registers == s.registers,
        released(s, key).pc == s.pc,
{
}

} // verus!
