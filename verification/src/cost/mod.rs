//! The cost meter: what each operator costs, where the cost of a basic block is
//! charged, and how the host reads the meter back.

pub mod counts;
pub mod guard;
pub mod module_info;
pub mod operator;

use vstd::prelude::*;
use vstd::string::StringExecFns;
use wasmer_types::ModuleInfo;

use crate::cost::counts::{tallied, OperationCounts};
use crate::cost::guard::{
    guard, guard_code, lemma_guard_charges, metered, points_left, run, Guest, Instr, Outcome, Value,
};
use crate::cost::module_info::{
    declared_globals, export_global, exported, global_count, global_initializer_count,
    global_initializers, push_global, push_global_initializer, ConstInit, Export, GlobalDecl,
    ValueKind,
};
use crate::cost::operator::{is_block_boundary, static_cost, Op};

verus! {

/// The name under which the remaining points are exported.
pub open spec fn remaining_points_export() -> Seq<char> {
    "compilet_cost_remaining_points"@
}

/// The name under which the exhausted flag is exported.
pub open spec fn points_exhausted_export() -> Seq<char> {
    "compilet_cost_points_exhausted"@
}

/// The indexes of the two globals of the meter.
#[derive(Clone, Copy, Debug, PartialEq, Eq)]
pub struct CostGlobalIndexes(pub u32, pub u32);

impl CostGlobalIndexes {
    /// The index of the global that holds the remaining points.
    pub fn remaining_points(&self) -> (index: u32)
        ensures
            index == self.0,
    {
        self.0
    }

    /// The index of the global that tells whether the points are exhausted:
    /// 0 while points remain, 1 once they are exhausted.
    pub fn points_exhausted(&self) -> (index: u32)
        ensures
            index == self.1,
    {
        self.1
    }
}

/// The meter of one module.
#[derive(Debug)]
pub struct Cost {
    /// Limit of points.
    budget: u64,
    /// The indexes of the meter's globals, once the module has been transformed.
    global_indexes: Option<CostGlobalIndexes>,
    /// How often each operator occurs in the module.
    operation_counts: OperationCounts,
}

/// The meter of one function.
#[derive(Debug)]
pub struct FunctionCost {
    /// The indexes of the meter's globals.
    global_indexes: CostGlobalIndexes,
    /// Accumulated cost of the current basic block.
    accumulated_cost: u64,
}

/// What the host reads off the meter.
#[derive(Debug, PartialEq, Eq)]
pub enum CostPoints {
    /// The given number of points is left. With 0, all points are consumed but
    /// the execution was not terminated.
    Remaining(u64),
    /// The execution was terminated because the points were exhausted.
    Exhausted,
}

/// Why a meter cannot transform a module.
#[derive(Debug, PartialEq, Eq)]
pub enum MeterFault {
    /// The meter has already transformed a module.
    AlreadyUsed,
    /// The module has no room for two more globals.
    TooManyGlobals,
}

/// The cost of the current block once `op` is added to the `pending` cost.
pub open spec fn block_cost(pending: int, op: Op) -> int {
    pending + static_cost(op)
}

/// Whether the block is charged in front of `op`: `op` ends a block, and the block
/// with `op` costs something.
pub open spec fn charges(pending: int, op: Op) -> bool {
    is_block_boundary(op) && block_cost(pending, op) > 0
}

/// The instructions put in front of `op`.
pub open spec fn emitted_before(indexes: CostGlobalIndexes, pending: int, op: Op) -> Seq<Instr> {
    if charges(pending, op) {
        guard(indexes.0, indexes.1, block_cost(pending, op) as u64)
    } else {
        Seq::empty()
    }
}

/// The cost that the guard in front of `op` charges; 0 where there is no guard.
pub open spec fn charged_before(pending: int, op: Op) -> int {
    if charges(pending, op) {
        block_cost(pending, op)
    } else {
        0
    }
}

/// The cost carried on after `op`.
pub open spec fn carried_after(pending: int, op: Op) -> int {
    if charges(pending, op) {
        0
    } else {
        block_cost(pending, op)
    }
}

/// The static cost of a run of operators.
pub open spec fn total_cost(ops: Seq<Op>) -> int
    decreases ops.len(),
{
    if ops.len() == 0 {
        0
    } else {
        total_cost(ops.drop_last()) + static_cost(ops.last())
    }
}

/// The cost still carried after a run of operators that began with the
/// `pending` cost.
pub open spec fn carried_through(pending: int, ops: Seq<Op>) -> int
    decreases ops.len(),
{
    if ops.len() == 0 {
        pending
    } else {
        carried_after(carried_through(pending, ops.drop_last()), ops.last())
    }
}

/// The cost that all the guards in a run of operators charge together.
pub open spec fn charged_through(pending: int, ops: Seq<Op>) -> int
    decreases ops.len(),
{
    if ops.len() == 0 {
        0
    } else {
        charged_through(pending, ops.drop_last()) + charged_before(
            carried_through(pending, ops.drop_last()),
            ops.last(),
        )
    }
}

/// No cost is lost and none is charged twice: what the guards of a run of
/// operators charge, and what is still carried after it, is together what was
/// pending before and what the operators cost.
pub proof fn lemma_every_cost_is_charged_once(pending: int, ops: Seq<Op>)
    ensures
        charged_through(pending, ops) + carried_through(pending, ops) == pending + total_cost(ops),
    decreases ops.len(),
{
    if ops.len() > 0 {
        lemma_every_cost_is_charged_once(pending, ops.drop_last());
    }
}

/// Behind an operator that ends a block nothing is carried on: a run of operators
/// that ends with such an operator, as every function body does, has all its
/// cost charged.
pub proof fn lemma_block_end_charges_all(pending: int, ops: Seq<Op>)
    requires
        pending >= 0,
        ops.len() > 0,
        is_block_boundary(ops.last()),
    ensures
        carried_through(pending, ops) == 0,
        charged_through(pending, ops) == pending + total_cost(ops),
{
    lemma_carried_is_no_debt(pending, ops.drop_last());
    lemma_every_cost_is_charged_once(pending, ops);
}

/// What is carried on is never negative.
pub proof fn lemma_carried_is_no_debt(pending: int, ops: Seq<Op>)
    requires
        pending >= 0,
    ensures
        carried_through(pending, ops) >= 0,
    decreases ops.len(),
{
    if ops.len() > 0 {
        lemma_carried_is_no_debt(pending, ops.drop_last());
    }
}

/// The indexes that the meter's globals get in a module: the two after the
/// globals that the module has.
pub open spec fn meter_indexes(module: ModuleInfo) -> CostGlobalIndexes {
    CostGlobalIndexes(
        declared_globals(module).len() as u32,
        (declared_globals(module).len() + 1) as u32,
    )
}

/// Whether a module has room for the meter's two globals: the indexes of globals
/// and of their initializers hold 32 bits, and the highest value is kept free.
pub open spec fn has_room(module: ModuleInfo) -> bool {
    &&& declared_globals(module).len() + 1 < u32::MAX
    &&& global_initializers(module).len() + 1 < u32::MAX
}

/// What the meter does to a module: `after` is `before` with two more globals, a
/// mutable 64-bit global that starts at the budget and a mutable 32-bit global
/// that starts at 0, each exported under its fixed name.
pub open spec fn metered_module(before: ModuleInfo, after: ModuleInfo, budget: u64) -> bool {
    &&& declared_globals(after) == declared_globals(before).push(
        GlobalDecl { kind: ValueKind::I64, mutable: true },
    ).push(GlobalDecl { kind: ValueKind::I32, mutable: true })
    &&& global_initializers(after) == global_initializers(before).push(
        Some(ConstInit::I64(budget as i64)),
    ).push(Some(ConstInit::I32(0)))
    &&& exported(after) == exported(before).insert(
        remaining_points_export(),
        Export::Global(meter_indexes(before).0),
    ).insert(points_exhausted_export(), Export::Global(meter_indexes(before).1))
}

/// What the host reads off the meter's two globals: exhausted where the flag is
/// not 0, else the remaining points.
pub open spec fn meter_reading(exhausted: i32, remaining: u64) -> CostPoints {
    if exhausted != 0 {
        CostPoints::Exhausted
    } else {
        CostPoints::Remaining(remaining)
    }
}

/// What the host reads off the meter of a guest.
pub open spec fn guest_reading(guest: Guest, indexes: CostGlobalIndexes) -> CostPoints {
    meter_reading(guest.globals[indexes.1]->I32_0 as i32, points_left(guest, indexes.0))
}

/// What the host reads after the guard for a block that cost `cost` ran on a
/// guest that was not exhausted before: where the guard trapped, fewer than
/// `cost` points were left and the meter reads exhausted; where it did not, the
/// meter reads the points that were left less `cost`.
pub proof fn lemma_reading_after_guard(guest: Guest, indexes: CostGlobalIndexes, cost: u64)
    requires
        metered(guest, indexes.0, indexes.1),
        guest.globals[indexes.1] == Value::I32(0),
    ensures
        match run(guard(indexes.0, indexes.1, cost), 0, guest) {
            Outcome::Done(after) => points_left(guest, indexes.0) >= cost && guest_reading(
                after,
                indexes,
            ) == CostPoints::Remaining((points_left(guest, indexes.0) - cost) as u64),
            Outcome::Trapped(after) => points_left(guest, indexes.0) < cost && guest_reading(
                after,
                indexes,
            ) == CostPoints::Exhausted,
            Outcome::Stuck => false,
        },
{
    lemma_guard_charges(guest, indexes.0, indexes.1, cost);
    assert(0u32 as i32 == 0i32) by (bit_vector);
    assert(1u32 as i32 == 1i32) by (bit_vector);
}

impl Cost {
    /// The limit of points.
    pub closed spec fn spec_budget(&self) -> u64 {
        self.budget
    }

    /// The indexes of the meter's globals; `None` until a module was transformed.
    pub closed spec fn indexes(&self) -> Option<CostGlobalIndexes> {
        self.global_indexes
    }

    /// How often each operator occurred so far.
    pub closed spec fn counts(&self) -> OperationCounts {
        self.operation_counts
    }

    /// Creates a meter with the given limit of points.
    pub fn new(budget: u64) -> (cost: Self)
        ensures
            cost.spec_budget() == budget,
            cost.indexes() is None,
            cost.counts().wf(),
            cost.counts()@ == Map::<Seq<char>, u64>::empty(),
    {
        Self { budget, global_indexes: None, operation_counts: OperationCounts::new() }
    }

    /// The limit of points.
    #[verifier::when_used_as_spec(spec_budget)]
    pub fn budget(&self) -> (budget: u64)
        ensures
            budget == self.spec_budget(),
    {
        self.budget
    }

    /// How often each operator occurred so far.
    pub fn operation_counts(&self) -> (counts: &OperationCounts)
        ensures
            *counts == self.counts(),
    {
        &self.operation_counts
    }

    /// The indexes of the meter's globals, once a module was transformed.
    pub fn global_indexes(&self) -> (indexes: Option<CostGlobalIndexes>)
        ensures
            indexes == self.indexes(),
    {
        self.global_indexes
    }

    /// The meter for one function of the transformed module.
    pub fn generate_function_middleware(&self) -> (function: FunctionCost)
        requires
            self.indexes() is Some,
        ensures
            function.indexes() == self.indexes()->0,
            function.accumulated() == 0,
    {
        FunctionCost { global_indexes: self.global_indexes.unwrap(), accumulated_cost: 0 }
    }

    /// Adds the meter's two globals to the module: a mutable 64-bit global that
    /// starts at the budget, and a mutable 32-bit global that starts at 0, each
    /// exported under its fixed name. The meter remembers their indexes. A meter
    /// serves one module only.
    pub fn transform_module_info(&mut self, module_info: &mut ModuleInfo)
        requires
            old(self).indexes() is None,
            has_room(*old(module_info)),
        ensures
            final(self).spec_budget() == old(self).spec_budget(),
            final(self).counts() == old(self).counts(),
            final(self).indexes() == Some(meter_indexes(*old(module_info))),
            metered_module(*old(module_info), *final(module_info), old(self).spec_budget()),
    {
        let remaining_points = push_global(
            module_info,
            GlobalDecl { kind: ValueKind::I64, mutable: true },
        );
        push_global_initializer(module_info, ConstInit::I64(self.budget as i64));
        export_global(
            module_info,
            String::from_str("compilet_cost_remaining_points"),
            remaining_points,
        );

        let points_exhausted = push_global(
            module_info,
            GlobalDecl { kind: ValueKind::I32, mutable: true },
        );
        push_global_initializer(module_info, ConstInit::I32(0));
        export_global(
            module_info,
            String::from_str("compilet_cost_points_exhausted"),
            points_exhausted,
        );

        self.global_indexes = Some(CostGlobalIndexes(remaining_points, points_exhausted));
    }

    /// Transforms the module where this meter is still unused and the module has
    /// room for two more globals; otherwise says why not and changes nothing.
    pub fn try_transform_module_info(&mut self, module_info: &mut ModuleInfo) -> (done: Result<
        (),
        MeterFault,
    >)
        ensures
            done == if old(self).indexes() is Some {
                Err::<(), MeterFault>(MeterFault::AlreadyUsed)
            } else if !has_room(*old(module_info)) {
                Err(MeterFault::TooManyGlobals)
            } else {
                Ok(())
            },
            done is Err ==> *final(self) == *old(self) && *final(module_info) == *old(module_info),
            done is Ok ==> {
                &&& final(self).spec_budget() == old(self).spec_budget()
                &&& final(self).counts() == old(self).counts()
                &&& final(self).indexes() == Some(meter_indexes(*old(module_info)))
                &&& metered_module(*old(module_info), *final(module_info), old(self).spec_budget())
            },
    {
        if self.global_indexes.is_some() {
            return Err(MeterFault::AlreadyUsed);
        }
        if global_count(module_info) >= 0xffff_fffe || global_initializer_count(module_info)
            >= 0xffff_fffe {
            return Err(MeterFault::TooManyGlobals);
        }
        self.transform_module_info(module_info);
        Ok(())
    }

    /// Takes in the next operator of `function`, a function of this meter's
    /// module, and counts it in this meter's histogram: see `FunctionCost::feed`.
    pub fn feed(&mut self, function: &mut FunctionCost, op: Op, name: String) -> (emitted: Vec<
        Instr,
    >)
        requires
            block_cost(old(function).accumulated() as int, op) <= u64::MAX,
            old(self).counts().wf(),
            old(self).counts().count(name@) < u64::MAX,
        ensures
            final(self).spec_budget() == old(self).spec_budget(),
            final(self).indexes() == old(self).indexes(),
            final(function).indexes() == old(function).indexes(),
            final(function).accumulated() == carried_after(old(function).accumulated() as int, op),
            emitted@ == emitted_before(
                old(function).indexes(),
                old(function).accumulated() as int,
                op,
            ),
            final(self).counts().wf(),
            final(self).counts()@ == tallied(old(self).counts()@, name@),
    {
        function.feed(op, name, &mut self.operation_counts)
    }

    /// Takes in the next operator as `feed` does, where neither the cost of the
    /// block nor the count of the name would leave 64 bits; otherwise does
    /// nothing and returns `None`.
    pub fn checked_feed(&mut self, function: &mut FunctionCost, op: Op, name: String) -> (emitted:
        Option<Vec<Instr>>)
        requires
            old(self).counts().wf(),
        ensures
            emitted is Some <==> block_cost(old(function).accumulated() as int, op) <= u64::MAX
                && old(self).counts().count(name@) < u64::MAX,
            emitted is None ==> *final(self) == *old(self) && *final(function) == *old(function),
            emitted is Some ==> {
                &&& final(self).spec_budget() == old(self).spec_budget()
                &&& final(self).indexes() == old(self).indexes()
                &&& final(function).indexes() == old(function).indexes()
                &&& final(function).accumulated() == carried_after(
                    old(function).accumulated() as int,
                    op,
                )
                &&& emitted->0@ == emitted_before(
                    old(function).indexes(),
                    old(function).accumulated() as int,
                    op,
                )
                &&& final(self).counts().wf()
                &&& final(self).counts()@ == tallied(old(self).counts()@, name@)
            },
    {
        if function.accumulated_cost > u64::MAX - op.cost() {
            return None;
        }
        if self.operation_counts.get(&name) == u64::MAX {
            return None;
        }
        Some(function.feed(op, name, &mut self.operation_counts))
    }
}

impl FunctionCost {
    /// The indexes of the meter's globals.
    pub closed spec fn indexes(&self) -> CostGlobalIndexes {
        self.global_indexes
    }

    /// The cost accumulated since the last charge.
    pub closed spec fn accumulated(&self) -> u64 {
        self.accumulated_cost
    }

    /// The cost accumulated since the last charge.
    pub fn accumulated_cost(&self) -> (cost: u64)
        ensures
            cost == self.accumulated(),
    {
        self.accumulated_cost
    }

    /// The indexes of the meter's globals.
    pub fn global_indexes(&self) -> (indexes: CostGlobalIndexes)
        ensures
            indexes == self.indexes(),
    {
        self.global_indexes
    }

    /// Takes in the next operator of the function, `op`, whose printable name is
    /// `name`: adds its cost to the current block, counts it in the histogram, and
    /// returns the instructions to put in front of it, which are the guard for
    /// the block where `op` ends a block that cost something, and nothing
    /// otherwise. The operator itself is forwarded unchanged behind them.
    pub fn feed(&mut self, op: Op, name: String, counts: &mut OperationCounts) -> (emitted: Vec<
        Instr,
    >)
        requires
            block_cost(old(self).accumulated() as int, op) <= u64::MAX,
            old(counts).wf(),
            old(counts).count(name@) < u64::MAX,
        ensures
            final(self).indexes() == old(self).indexes(),
            final(self).accumulated() == carried_after(old(self).accumulated() as int, op),
            emitted@ == emitted_before(old(self).indexes(), old(self).accumulated() as int, op),
            final(counts).wf(),
            final(counts)@ == tallied(old(counts)@, name@),
    {
        self.accumulated_cost = self.accumulated_cost + op.cost();
        counts.increment(name);
        if op.ends_block() && self.accumulated_cost > 0 {
            let emitted = guard_code(
                self.global_indexes.remaining_points(),
                self.global_indexes.points_exhausted(),
                self.accumulated_cost,
            );
            self.accumulated_cost = 0;
            emitted
        } else {
            Vec::new()
        }
    }
}

/// Reads the meter from the values of its two globals: exhausted where the flag
/// is not 0, else the remaining points.
pub fn get_remaining_points(exhausted: i32, remaining: u64) -> (points: CostPoints)
    ensures
        points == meter_reading(exhausted, remaining),
{
    if exhausted != 0 {
        return CostPoints::Exhausted;
    }
    CostPoints::Remaining(remaining)
}

} // verus!
