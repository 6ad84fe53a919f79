use wark::cost::counts::OperationCounts;
use wark::cost::guard::{guard_code, Instr};
use wark::cost::module_info::{ConstInit, Export, GlobalDecl, ValueKind};
use wark::cost::operator::Op;
use wark::cost::{
    get_remaining_points, Cost, CostGlobalIndexes, CostPoints, FunctionCost, MeterFault,
};
use wasmer_types::{
    ExportIndex, GlobalIndex, GlobalInit, GlobalType, ModuleInfo, Mutability, Type,
};

fn expected_guard(remaining: u32, exhausted: u32, cost: i64) -> Vec<Instr> {
    vec![
        Instr::GlobalGet { global_index: remaining },
        Instr::I64Const { value: cost },
        Instr::I64LtU,
        Instr::If,
        Instr::I32Const { value: 1 },
        Instr::GlobalSet { global_index: exhausted },
        Instr::Unreachable,
        Instr::End,
        Instr::GlobalGet { global_index: remaining },
        Instr::I64Const { value: cost },
        Instr::I64Sub,
        Instr::GlobalSet { global_index: remaining },
    ]
}

fn metered(budget: u64) -> (Cost, FunctionCost) {
    let mut cost = Cost::new(budget);
    let mut info = ModuleInfo::new();
    cost.try_transform_module_info(&mut info).unwrap();
    let function = cost.generate_function_middleware();
    (cost, function)
}

#[test]
fn the_guard_is_the_twelve_instructions_in_order() {
    assert_eq!(guard_code(3, 4, 17), expected_guard(3, 4, 17));
}

#[test]
fn the_guard_keeps_the_bits_of_a_cost_above_the_signed_range() {
    let code = guard_code(0, 1, u64::MAX);
    assert_eq!(code[1], Instr::I64Const { value: -1 });
    assert_eq!(code[9], Instr::I64Const { value: -1 });
    let code = guard_code(0, 1, 1u64 << 63);
    assert_eq!(code[1], Instr::I64Const { value: i64::MIN });
}

#[test]
fn a_new_meter_holds_its_budget_and_nothing_else() {
    let cost = Cost::new(1234);
    assert_eq!(cost.budget(), 1234);
    assert_eq!(cost.global_indexes(), None);
    assert_eq!(cost.operation_counts().len(), 0);
}

#[test]
fn the_module_gets_two_exported_globals() {
    let mut cost = Cost::new(1_000_000);
    let mut info = ModuleInfo::new();
    info.globals.push(GlobalType::new(Type::F32, Mutability::Const));
    info.global_initializers.push(GlobalInit::F32Const(1.5));
    assert_eq!(cost.try_transform_module_info(&mut info), Ok(()));

    assert_eq!(cost.global_indexes(), Some(CostGlobalIndexes(1, 2)));
    assert_eq!(info.globals.len(), 3);
    assert_eq!(
        info.globals[GlobalIndex::from_u32(1)],
        GlobalType::new(Type::I64, Mutability::Var)
    );
    assert_eq!(
        info.globals[GlobalIndex::from_u32(2)],
        GlobalType::new(Type::I32, Mutability::Var)
    );
    let initializers: Vec<GlobalInit> = info.global_initializers.values().cloned().collect();
    assert_eq!(
        initializers,
        vec![
            GlobalInit::F32Const(1.5),
            GlobalInit::I64Const(1_000_000),
            GlobalInit::I32Const(0)
        ]
    );
    assert_eq!(
        info.exports.get("compilet_cost_remaining_points"),
        Some(&ExportIndex::Global(GlobalIndex::from_u32(1)))
    );
    assert_eq!(
        info.exports.get("compilet_cost_points_exhausted"),
        Some(&ExportIndex::Global(GlobalIndex::from_u32(2)))
    );
    assert_eq!(info.exports.len(), 2);
}

#[test]
fn a_budget_above_the_signed_range_keeps_its_bits() {
    let mut cost = Cost::new(u64::MAX);
    let mut info = ModuleInfo::new();
    cost.try_transform_module_info(&mut info).unwrap();
    let initializers: Vec<GlobalInit> = info.global_initializers.values().cloned().collect();
    assert_eq!(initializers[0], GlobalInit::I64Const(-1));
}

#[test]
fn a_meter_serves_one_module_only() {
    let mut cost = Cost::new(10);
    let mut first = ModuleInfo::new();
    let mut second = ModuleInfo::new();
    assert_eq!(cost.try_transform_module_info(&mut first), Ok(()));
    assert_eq!(
        cost.try_transform_module_info(&mut second),
        Err(MeterFault::AlreadyUsed)
    );
    assert_eq!(second.globals.len(), 0);
    assert_eq!(second.exports.len(), 0);
    assert_eq!(cost.global_indexes(), Some(CostGlobalIndexes(0, 1)));
}

#[test]
fn the_function_meter_starts_empty_with_the_indexes_of_the_module() {
    let (_, function) = metered(100);
    assert_eq!(function.global_indexes(), CostGlobalIndexes(0, 1));
    assert_eq!(function.global_indexes().remaining_points(), 0);
    assert_eq!(function.global_indexes().points_exhausted(), 1);
    assert_eq!(function.accumulated_cost(), 0);
}

#[test]
fn an_operator_inside_a_block_is_counted_and_carried() {
    let (mut cost, mut function) = metered(100);
    let emitted = cost.feed(&mut function, Op::I32Mul, "I32Mul".to_string());
    assert!(emitted.is_empty());
    assert_eq!(function.accumulated_cost(), 2);
    let emitted = cost.feed(&mut function, Op::I32DivS, "I32DivS".to_string());
    assert!(emitted.is_empty());
    assert_eq!(function.accumulated_cost(), 5);
    assert_eq!(cost.operation_counts().get(&"I32Mul".to_string()), 1);
    assert_eq!(cost.operation_counts().get(&"I32DivS".to_string()), 1);
    assert_eq!(cost.operation_counts().get(&"I32Add".to_string()), 0);
}

#[test]
fn a_block_boundary_charges_the_block_with_itself() {
    let (mut cost, mut function) = metered(100);
    cost.feed(&mut function, Op::LocalGet, "LocalGet".to_string());
    cost.feed(&mut function, Op::I64Const, "I64Const".to_string());
    cost.feed(&mut function, Op::I64Mul, "I64Mul".to_string());
    let emitted = cost.feed(&mut function, Op::BrIf, "BrIf".to_string());
    assert_eq!(emitted, expected_guard(0, 1, 4));
    assert_eq!(function.accumulated_cost(), 0);
}

#[test]
fn every_boundary_charges_and_starts_a_new_block() {
    for (op, own) in [
        (Op::Loop, 1),
        (Op::End, 1),
        (Op::Else, 1),
        (Op::Br, 1),
        (Op::BrTable, 1),
        (Op::BrIf, 1),
        (Op::Call, 4),
        (Op::CallIndirect, 6),
    ] {
        let (mut cost, mut function) = metered(100);
        cost.feed(&mut function, Op::F64Div, "F64Div".to_string());
        let emitted = cost.feed(&mut function, op, format!("{:?}", op));
        assert_eq!(emitted, expected_guard(0, 1, 3 + own), "{:?}", op);
        assert_eq!(function.accumulated_cost(), 0);
    }
}

#[test]
fn a_free_boundary_after_nothing_charges_nothing() {
    let (mut cost, mut function) = metered(100);
    let emitted = cost.feed(&mut function, Op::Return, "Return".to_string());
    assert!(emitted.is_empty());
    assert_eq!(function.accumulated_cost(), 0);
    cost.feed(&mut function, Op::Nop, "Nop".to_string());
    cost.feed(&mut function, Op::Drop, "Drop".to_string());
    let emitted = cost.feed(&mut function, Op::Return, "Return".to_string());
    assert!(emitted.is_empty());
    assert_eq!(cost.operation_counts().get(&"Return".to_string()), 2);
}

#[test]
fn return_charges_what_was_carried() {
    let (mut cost, mut function) = metered(100);
    cost.feed(&mut function, Op::I32Const, "I32Const".to_string());
    let emitted = cost.feed(&mut function, Op::Return, "Return".to_string());
    assert_eq!(emitted, expected_guard(0, 1, 1));
}

#[test]
fn throw_try_drop_nop_and_unreachable_do_not_charge() {
    let (mut cost, mut function) = metered(100);
    for op in [Op::Throw, Op::Try, Op::Drop, Op::Nop, Op::Unreachable] {
        let emitted = cost.feed(&mut function, op, format!("{:?}", op));
        assert!(emitted.is_empty(), "{:?}", op);
    }
    assert_eq!(function.accumulated_cost(), 100);
    let emitted = cost.feed(&mut function, Op::End, "End".to_string());
    assert_eq!(emitted, expected_guard(0, 1, 101));
}

#[test]
fn an_unlisted_operator_is_counted_under_its_own_name() {
    let (mut cost, mut function) = metered(100);
    let emitted = cost.feed(&mut function, Op::Other, "TableGet".to_string());
    assert!(emitted.is_empty());
    assert_eq!(function.accumulated_cost(), 1000);
    assert_eq!(cost.operation_counts().get(&"TableGet".to_string()), 1);
}

#[test]
fn the_histogram_counts_every_occurrence() {
    let (mut cost, mut function) = metered(100);
    let body = [
        Op::LocalGet,
        Op::LocalGet,
        Op::I32Add,
        Op::LocalGet,
        Op::I32Add,
        Op::Drop,
        Op::End,
    ];
    for op in body {
        cost.feed(&mut function, op, format!("{:?}", op));
    }
    let counts = cost.operation_counts();
    assert_eq!(counts.get(&"LocalGet".to_string()), 3);
    assert_eq!(counts.get(&"I32Add".to_string()), 2);
    assert_eq!(counts.get(&"Drop".to_string()), 1);
    assert_eq!(counts.get(&"End".to_string()), 1);
    assert_eq!(counts.len(), 4);
    let names: Vec<&str> = counts.tallies().iter().map(|tally| tally.name.as_str()).collect();
    assert_eq!(names, vec!["LocalGet", "I32Add", "Drop", "End"]);
    let sum: u64 = counts.tallies().iter().map(|tally| tally.count).sum();
    assert_eq!(sum, body.len() as u64);
}

#[test]
fn the_guards_of_a_body_charge_its_whole_cost() {
    let (mut cost, mut function) = metered(100);
    let body = [
        Op::Block,
        Op::LocalGet,
        Op::I32Eqz,
        Op::BrIf,
        Op::LocalGet,
        Op::I32Const,
        Op::I32Mul,
        Op::Call,
        Op::Drop,
        Op::End,
        Op::I32Const,
        Op::End,
    ];
    let mut charged: i64 = 0;
    let mut total: u64 = 0;
    for op in body {
        total += op.cost();
        let emitted = cost.feed(&mut function, op, format!("{:?}", op));
        if let Some(Instr::I64Const { value }) = emitted.get(1) {
            charged += value;
        }
    }
    assert_eq!(total, 13);
    assert_eq!(charged, 13);
    assert_eq!(function.accumulated_cost(), 0);
}

#[test]
fn a_checked_feed_takes_in_what_fits() {
    let (mut cost, mut function) = metered(100);
    assert_eq!(
        cost.checked_feed(&mut function, Op::Other, "TableSize".to_string()),
        Some(vec![])
    );
    assert_eq!(
        cost.checked_feed(&mut function, Op::I32Add, "I32Add".to_string()),
        Some(vec![])
    );
    assert_eq!(function.accumulated_cost(), 1001);
    assert_eq!(
        cost.checked_feed(&mut function, Op::End, "End".to_string()),
        Some(expected_guard(0, 1, 1002))
    );
    assert_eq!(function.accumulated_cost(), 0);
    assert_eq!(cost.operation_counts().get(&"I32Add".to_string()), 1);
    assert_eq!(cost.operation_counts().get(&"TableSize".to_string()), 1);
}

#[test]
fn a_function_meter_can_count_into_a_histogram_of_its_own() {
    let (_, mut function) = metered(100);
    let mut counts = OperationCounts::new();
    let emitted = function.feed(Op::Call, "Call".to_string(), &mut counts);
    assert_eq!(emitted, expected_guard(0, 1, 4));
    assert_eq!(counts.get(&"Call".to_string()), 1);
}

#[test]
fn the_meter_reads_exhausted_for_any_flag_but_zero() {
    assert_eq!(get_remaining_points(0, 77), CostPoints::Remaining(77));
    assert_eq!(get_remaining_points(0, 0), CostPoints::Remaining(0));
    assert_eq!(get_remaining_points(0, u64::MAX), CostPoints::Remaining(u64::MAX));
    assert_eq!(get_remaining_points(1, 77), CostPoints::Exhausted);
    assert_eq!(get_remaining_points(-1, 77), CostPoints::Exhausted);
    assert_eq!(get_remaining_points(i32::MIN, 0), CostPoints::Exhausted);
}

#[test]
fn the_histogram_starts_empty_and_counts_by_name() {
    let mut counts = OperationCounts::new();
    assert_eq!(counts.len(), 0);
    assert_eq!(counts.get(&"Nop".to_string()), 0);
    counts.increment("Nop".to_string());
    counts.increment("Nop".to_string());
    counts.increment("End".to_string());
    assert_eq!(counts.get(&"Nop".to_string()), 2);
    assert_eq!(counts.get(&"End".to_string()), 1);
    assert_eq!(counts.get(&"nop".to_string()), 0);
    assert_eq!(counts.len(), 2);
}

#[test]
fn the_plain_types_of_a_module_compare_by_value() {
    assert_eq!(
        GlobalDecl { kind: ValueKind::I64, mutable: true },
        GlobalDecl { kind: ValueKind::I64, mutable: true }
    );
    assert_ne!(ConstInit::I32(0), ConstInit::I64(0));
    assert_ne!(Export::Global(1), Export::Memory(1));
}
