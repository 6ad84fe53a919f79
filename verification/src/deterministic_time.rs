//! The deterministic clock: the guest always reads time zero.

use vstd::prelude::*;
use vstd::string::StringExecFns;

verus! {

/// The errno for success.
pub const ERRNO_SUCCESS: i32 = 0;

/// Whether a namespace addresses the guest's memory with 32 or with 64 bits.
#[derive(Clone, Copy, Debug, PartialEq, Eq)]
pub enum MemoryModel {
    Memory32,
    Memory64,
}

/// One import that the host overrides: its namespace, its name, and the memory
/// model by which its result pointer is read.
#[derive(Debug)]
pub struct ClockImport {
    pub namespace: String,
    pub name: String,
    pub model: MemoryModel,
}

/// The answer to `clock_time_get`: the time stored at the guest's result
/// pointer, and the errno returned.
#[derive(Clone, Copy, Debug, PartialEq, Eq)]
pub struct ClockAnswer {
    pub time: u64,
    pub errno: i32,
}

/// The namespaces in which `clock_time_get` is overridden, each with its memory
/// model, in the order in which they are defined.
pub open spec fn clock_namespaces() -> Seq<(Seq<char>, MemoryModel)> {
    seq![
        ("wasi"@, MemoryModel::Memory32),
        ("wasi_unstable"@, MemoryModel::Memory32),
        ("wasi_snapshot_preview1"@, MemoryModel::Memory32),
        ("wasix_32v1"@, MemoryModel::Memory32),
        ("wasix_64v1"@, MemoryModel::Memory64),
    ]
}

/// The name of the overridden import.
pub open spec fn clock_import_name() -> Seq<char> {
    "clock_time_get"@
}

/// `clock_time_get` for any clock and any precision: time zero, and success.
pub fn clock_time_get(clock_id: u32, precision: u64) -> (answer: ClockAnswer)
    ensures
        answer.time == 0,
        answer.errno == ERRNO_SUCCESS,
{
    ClockAnswer { time: 0, errno: ERRNO_SUCCESS }
}

fn clock_import(namespace: &str, model: MemoryModel) -> (import: ClockImport)
    ensures
        import.namespace@ == namespace@,
        import.name@ == clock_import_name(),
        import.model == model,
{
    ClockImport {
        namespace: String::from_str(namespace),
        name: String::from_str("clock_time_get"),
        model,
    }
}

/// The imports that make the guest's time deterministic: `clock_time_get` in
/// every WASI namespace.
pub fn use_deterministic_time() -> (imports: Vec<ClockImport>)
    ensures
        imports@.len() == clock_namespaces().len(),
        forall|i: int|
            0 <= i < imports@.len() ==> {
                &&& (#[trigger] imports@[i]).namespace@ == clock_namespaces()[i].0
                &&& imports@[i].name@ == clock_import_name()
                &&& imports@[i].model == clock_namespaces()[i].1
            },
{
    let mut imports: Vec<ClockImport> = Vec::new();
    imports.push(clock_import("wasi", MemoryModel::Memory32));
    imports.push(clock_import("wasi_unstable", MemoryModel::Memory32));
    imports.push(clock_import("wasi_snapshot_preview1", MemoryModel::Memory32));
    imports.push(clock_import("wasix_32v1", MemoryModel::Memory32));
    imports.push(clock_import("wasix_64v1", MemoryModel::Memory64));
    imports
}

} // verus!
