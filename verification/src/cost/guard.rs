//! The guard that the meter puts in front of every basic-block boundary, and
//! what that guard does when the guest runs it.

use vstd::prelude::*;

verus! {

/// An instruction that the meter emits.
#[derive(Clone, Copy, Debug, PartialEq, Eq)]
#[allow(inconsistent_fields)]
pub enum Instr {
    /// `global.get`
    GlobalGet { global_index: u32 },
    /// `global.set`
    GlobalSet { global_index: u32 },
    /// `i64.const`
    I64Const { value: i64 },
    /// `i32.const`
    I32Const { value: i32 },
    /// `i64.lt_u`
    I64LtU,
    /// `i64.sub`
    I64Sub,
    /// `if` with an empty block type
    If,
    /// `unreachable`
    Unreachable,
    /// `end`
    End,
}

/// The guard for a block that cost `cost`: trap with the exhausted flag set if
/// fewer than `cost` points remain, else take `cost` off the remaining points.
pub open spec fn guard(remaining: u32, exhausted: u32, cost: u64) -> Seq<Instr> {
    seq![
        Instr::GlobalGet { global_index: remaining },
        Instr::I64Const { value: cost as i64 },
        Instr::I64LtU,
        Instr::If,
        Instr::I32Const { value: 1 },
        Instr::GlobalSet { global_index: exhausted },
        Instr::Unreachable,
        Instr::End,
        Instr::GlobalGet { global_index: remaining },
        Instr::I64Const { value: cost as i64 },
        Instr::I64Sub,
        Instr::GlobalSet { global_index: remaining },
    ]
}

/// Builds the guard for a block that cost `cost`.
pub fn guard_code(remaining: u32, exhausted: u32, cost: u64) -> (code: Vec<Instr>)
    ensures
        code@ == guard(remaining, exhausted, cost),
{
    let mut code: Vec<Instr> = Vec::new();
    code.push(Instr::GlobalGet { global_index: remaining });
    code.push(Instr::I64Const { value: cost as i64 });
    code.push(Instr::I64LtU);
    code.push(Instr::If);
    code.push(Instr::I32Const { value: 1 });
    code.push(Instr::GlobalSet { global_index: exhausted });
    code.push(Instr::Unreachable);
    code.push(Instr::End);
    code.push(Instr::GlobalGet { global_index: remaining });
    code.push(Instr::I64Const { value: cost as i64 });
    code.push(Instr::I64Sub);
    code.push(Instr::GlobalSet { global_index: remaining });
    assert(code@ =~= guard(remaining, exhausted, cost));
    code
}

/// A value of the guest, as its bit pattern.
pub enum Value {
    I32(u32),
    I64(u64),
}

/// The part of the guest that the guard touches: the operand stack (its top is
/// the last element) and the globals.
pub struct Guest {
    pub stack: Seq<Value>,
    pub globals: Map<u32, Value>,
}

/// How a run of emitted code ends.
pub enum Outcome {
    /// The code ran to its end.
    Done(Guest),
    /// The code trapped.
    Trapped(Guest),
    /// The code is not well-typed for this guest.
    Stuck,
}

/// `a - b` on 64-bit patterns, wrapping.
pub open spec fn wrapping_sub_64(a: u64, b: u64) -> u64 {
    if a >= b {
        (a - b) as u64
    } else {
        (a - b + 0x1_0000_0000_0000_0000) as u64
    }
}

/// What one instruction other than `if`, `end` and `unreachable` does to the
/// guest; `None` where the stack or the global has the wrong shape.
pub open spec fn step(instr: Instr, guest: Guest) -> Option<Guest> {
    let stack = guest.stack;
    let n = stack.len() as int;
    match instr {
        Instr::GlobalGet { global_index } => if guest.globals.contains_key(global_index) {
            Some(Guest { stack: stack.push(guest.globals[global_index]), ..guest })
        } else {
            None
        },
        Instr::GlobalSet { global_index } => if n >= 1 && guest.globals.contains_key(
            global_index,
        ) && (stack[n - 1] is I64 <==> guest.globals[global_index] is I64) {
            Some(
                Guest {
                    stack: stack.drop_last(),
                    globals: guest.globals.insert(global_index, stack[n - 1]),
                },
            )
        } else {
            None
        },
        Instr::I64Const { value } => Some(
            Guest { stack: stack.push(Value::I64(value as u64)), ..guest },
        ),
        Instr::I32Const { value } => Some(
            Guest { stack: stack.push(Value::I32(value as u32)), ..guest },
        ),
        Instr::I64LtU => if n >= 2 && stack[n - 2] is I64 && stack[n - 1] is I64 {
            let less: u32 = if stack[n - 2]->I64_0 < stack[n - 1]->I64_0 {
                1
            } else {
                0
            };
            Some(Guest { stack: stack.drop_last().drop_last().push(Value::I32(less)), ..guest })
        } else {
            None
        },
        Instr::I64Sub => if n >= 2 && stack[n - 2] is I64 && stack[n - 1] is I64 {
            let difference = wrapping_sub_64(stack[n - 2]->I64_0, stack[n - 1]->I64_0);
            Some(
                Guest {
                    stack: stack.drop_last().drop_last().push(Value::I64(difference)),
                    ..guest
                },
            )
        } else {
            None
        },
        Instr::If | Instr::Unreachable | Instr::End => None,
    }
}

/// The position of the `end` that closes the block open at `pc`, with `depth`
/// more blocks opened since; `code.len()` where there is none.
pub open spec fn closing_end(code: Seq<Instr>, pc: int, depth: nat) -> int
    decreases code.len() - pc,
{
    if pc < 0 || pc >= code.len() {
        code.len() as int
    } else {
        match code[pc] {
            Instr::If => closing_end(code, pc + 1, depth + 1),
            Instr::End => if depth == 0 {
                pc
            } else {
                closing_end(code, pc + 1, (depth - 1) as nat)
            },
            _ => closing_end(code, pc + 1, depth),
        }
    }
}

/// Runs `code` from position `pc` on `guest`.
pub open spec fn run(code: Seq<Instr>, pc: int, guest: Guest) -> Outcome
    decreases code.len() - pc,
{
    if pc < 0 || pc > code.len() {
        Outcome::Stuck
    } else if pc == code.len() {
        Outcome::Done(guest)
    } else {
        match code[pc] {
            Instr::Unreachable => Outcome::Trapped(guest),
            Instr::End => run(code, pc + 1, guest),
            Instr::If => {
                let n = guest.stack.len() as int;
                if n >= 1 && guest.stack[n - 1] is I32 {
                    let rest = Guest { stack: guest.stack.drop_last(), ..guest };
                    if guest.stack[n - 1]->I32_0 != 0 {
                        run(code, pc + 1, rest)
                    } else {
                        let end = closing_end(code, pc + 1, 0);
                        if pc < end < code.len() {
                            run(code, end + 1, rest)
                        } else {
                            Outcome::Stuck
                        }
                    }
                } else {
                    Outcome::Stuck
                }
            },
            instr => match step(instr, guest) {
                Some(next) => run(code, pc + 1, next),
                None => Outcome::Stuck,
            },
        }
    }
}

/// The two meter globals are in place: distinct, the remaining points a 64-bit
/// value and the exhausted flag a 32-bit value.
pub open spec fn metered(guest: Guest, remaining: u32, exhausted: u32) -> bool {
    &&& remaining != exhausted
    &&& guest.globals.contains_key(remaining)
    &&& guest.globals[remaining] is I64
    &&& guest.globals.contains_key(exhausted)
    &&& guest.globals[exhausted] is I32
}

/// The points that remain on the guest's meter.
pub open spec fn points_left(guest: Guest, remaining: u32) -> u64 {
    guest.globals[remaining]->I64_0
}

/// What the guard is meant to do to a metered guest.
pub open spec fn charged(guest: Guest, remaining: u32, exhausted: u32, cost: u64) -> Outcome {
    if points_left(guest, remaining) < cost {
        Outcome::Trapped(
            Guest { stack: guest.stack, globals: guest.globals.insert(exhausted, Value::I32(1)) },
        )
    } else {
        Outcome::Done(
            Guest {
                stack: guest.stack,
                globals: guest.globals.insert(
                    remaining,
                    Value::I64((points_left(guest, remaining) - cost) as u64),
                ),
            },
        )
    }
}

/// The guard does what it is meant to: on a metered guest it traps with the
/// exhausted flag set to 1 where fewer than `cost` points remain, and otherwise
/// takes exactly `cost` points off and leaves everything else as it was.
pub proof fn lemma_guard_charges(guest: Guest, remaining: u32, exhausted: u32, cost: u64)
    requires
        metered(guest, remaining, exhausted),
    ensures
        run(guard(remaining, exhausted, cost), 0, guest) == charged(
            guest,
            remaining,
            exhausted,
            cost,
        ),
{
    let code = guard(remaining, exhausted, cost);
    let left = points_left(guest, remaining);
    assert((cost as i64) as u64 == cost) by (bit_vector);
    assert((1i32) as u32 == 1u32) by (bit_vector);
    let s0 = guest.stack;
    let g1 = Guest { stack: s0.push(Value::I64(left)), ..guest };
    let g2 = Guest { stack: g1.stack.push(Value::I64(cost)), ..guest };
    let less: u32 = if left < cost { 1 } else { 0 };
    let g3 = Guest { stack: s0.push(Value::I32(less)), ..guest };
    assert(g2.stack.drop_last().drop_last() =~= s0);
    assert(step(code[0], guest) == Some(g1));
    assert(step(code[1], g1) == Some(g2));
    assert(step(code[2], g2) == Some(g3));
    assert(g3.stack.drop_last() =~= s0);
    reveal_with_fuel(closing_end, 5);
    assert(closing_end(code, 4, 0) == 7);
    if left < cost {
        let g5 = Guest { stack: s0.push(Value::I32(1)), ..guest };
        let g6 = Guest { stack: s0, globals: guest.globals.insert(exhausted, Value::I32(1)) };
        assert(step(code[4], guest) == Some(g5));
        assert(g5.stack.drop_last() =~= s0);
        assert(step(code[5], g5) == Some(g6));
        assert(run(code, 6, g6) == Outcome::Trapped(g6));
        assert(run(code, 5, g5) == Outcome::Trapped(g6));
        assert(run(code, 4, guest) == Outcome::Trapped(g6));
        assert(run(code, 3, g3) == Outcome::Trapped(g6));
        assert(run(code, 2, g2) == Outcome::Trapped(g6));
        assert(run(code, 1, g1) == Outcome::Trapped(g6));
    } else {
        let g10 = Guest { stack: g2.stack, ..guest };
        let g11 = Guest { stack: s0.push(Value::I64((left - cost) as u64)), ..guest };
        let g12 = Guest {
            stack: s0,
            globals: guest.globals.insert(remaining, Value::I64((left - cost) as u64)),
        };
        assert(step(code[8], guest) == Some(g1));
        assert(step(code[9], g1) == Some(g2));
        assert(step(code[10], g2) == Some(g11));
        assert(g11.stack.drop_last() =~= s0);
        assert(step(code[11], g11) == Some(g12));
        assert(run(code, 12, g12) == Outcome::Done(g12));
        assert(run(code, 11, g11) == Outcome::Done(g12));
        assert(run(code, 10, g2) == Outcome::Done(g12));
        assert(run(code, 9, g1) == Outcome::Done(g12));
        assert(run(code, 8, guest) == Outcome::Done(g12));
        assert(run(code, 3, g3) == Outcome::Done(g12));
        assert(run(code, 2, g2) == Outcome::Done(g12));
        assert(run(code, 1, g1) == Outcome::Done(g12));
    }
}

/// The guard run `times` times in a row, as long as it does not trap.
pub open spec fn charged_times(
    guest: Guest,
    remaining: u32,
    exhausted: u32,
    cost: u64,
    times: nat,
) -> Outcome
    decreases times,
{
    if times == 0 {
        Outcome::Done(guest)
    } else {
        match charged_times(guest, remaining, exhausted, cost, (times - 1) as nat) {
            Outcome::Done(next) => run(guard(remaining, exhausted, cost), 0, next),
            other => other,
        }
    }
}

/// A block that costs `cost` and is run `times` times takes exactly
/// `times * cost` points off the meter, where that many points remain: the
/// guest is not stopped, and nothing else changes.
pub proof fn lemma_repeated_block_costs_product(
    guest: Guest,
    remaining: u32,
    exhausted: u32,
    cost: u64,
    times: nat,
)
    requires
        metered(guest, remaining, exhausted),
        times * cost <= points_left(guest, remaining),
    ensures
        charged_times(guest, remaining, exhausted, cost, times) matches Outcome::Done(after)
            && after.stack == guest.stack && after.globals == guest.globals.insert(
            remaining,
            Value::I64((points_left(guest, remaining) - times * cost) as u64),
        ),
    decreases times,
{
    let left = points_left(guest, remaining);
    if times == 0 {
        assert(guest.globals =~= guest.globals.insert(remaining, Value::I64(left)));
    } else {
        let fewer = (times - 1) as nat;
        assert(fewer * cost == times * cost - cost) by (nonlinear_arith)
            requires
                fewer == times - 1,
        ;
        lemma_repeated_block_costs_product(guest, remaining, exhausted, cost, fewer);
        let before = charged_times(guest, remaining, exhausted, cost, fewer)->Done_0;
        lemma_guard_charges(before, remaining, exhausted, cost);
        assert(before.globals.insert(
            remaining,
            Value::I64((points_left(before, remaining) - cost) as u64),
        ) =~= guest.globals.insert(remaining, Value::I64((left - times * cost) as u64)));
    }
}

/// The guard never adds points: after it, no more points remain than before.
pub proof fn lemma_guard_adds_no_points(guest: Guest, remaining: u32, exhausted: u32, cost: u64)
    requires
        metered(guest, remaining, exhausted),
    ensures
        match run(guard(remaining, exhausted, cost), 0, guest) {
            Outcome::Done(after) => metered(after, remaining, exhausted) && points_left(
                after,
                remaining,
            ) <= points_left(guest, remaining),
            Outcome::Trapped(after) => metered(after, remaining, exhausted) && points_left(
                after,
                remaining,
            ) == points_left(guest, remaining),
            Outcome::Stuck => false,
        },
{
    lemma_guard_charges(guest, remaining, exhausted, cost);
}

} // verus!
