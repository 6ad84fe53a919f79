//! The module description of `wasmer_types`, as far as the meter writes to it:
//! its table of globals, their initializers, and its exports.

use vstd::prelude::*;
use wasmer_types::{ExportIndex, GlobalIndex, GlobalInit, GlobalType, ModuleInfo, Mutability, Type};

verus! {

#[verifier::external_type_specification]
#[verifier::external_body]
pub struct ExModuleInfo(ModuleInfo);

/// The value type of a global.
#[derive(Clone, Copy, Debug, PartialEq, Eq)]
pub enum ValueKind {
    I32,
    I64,
    F32,
    F64,
    V128,
    ExternRef,
    FuncRef,
}

/// The declaration of a global: its value type and whether the guest may write it.
#[derive(Clone, Copy, Debug, PartialEq, Eq)]
pub struct GlobalDecl {
    pub kind: ValueKind,
    pub mutable: bool,
}

/// The initial value of a global, where it is an integer constant.
#[derive(Clone, Copy, Debug, PartialEq, Eq)]
pub enum ConstInit {
    I32(i32),
    I64(i64),
}

/// What a module exports under a name: the kind of entity and its index.
#[derive(Clone, Copy, Debug, PartialEq, Eq)]
pub enum Export {
    Function(u32),
    Table(u32),
    Memory(u32),
    Global(u32),
}

/// The globals of a module, imported and local, in index order.
pub uninterp spec fn declared_globals(info: ModuleInfo) -> Seq<GlobalDecl>;

/// The initializers of the local globals of a module, in index order; `None`
/// stands for an initializer that is no integer constant.
pub uninterp spec fn global_initializers(info: ModuleInfo) -> Seq<Option<ConstInit>>;

/// The exports of a module, by name.
pub uninterp spec fn exported(info: ModuleInfo) -> Map<Seq<char>, Export>;

/// `PrimaryMap::len` on the module's `globals`: the number of globals declared.
#[verifier::external_body]
pub(crate) fn global_count(info: &ModuleInfo) -> (count: usize)
    ensures
        count == declared_globals(*info).len(),
{
    info.globals.len()
}

/// `PrimaryMap::len` on the module's `global_initializers`: the number of
/// initializers of local globals.
#[verifier::external_body]
pub(crate) fn global_initializer_count(info: &ModuleInfo) -> (count: usize)
    ensures
        count == global_initializers(*info).len(),
{
    info.global_initializers.len()
}

/// `PrimaryMap::push` on the module's `globals`, with a `GlobalType` made by
/// `GlobalType::new` (its mutability by `Mutability::from`): the declaration is
/// appended, and the index returned (`GlobalIndex::as_u32`) is the number of
/// globals there were before. Nothing else in the module changes. The index type
/// holds 32 bits and its constructor asserts that the index is below `u32::MAX`.
#[verifier::external_body]
pub(crate) fn push_global(info: &mut ModuleInfo, decl: GlobalDecl) -> (index: u32)
    requires
        declared_globals(*old(info)).len() < u32::MAX,
    ensures
        index == declared_globals(*old(info)).len(),
        declared_globals(*final(info)) == declared_globals(*old(info)).push(decl),
        global_initializers(*final(info)) == global_initializers(*old(info)),
        exported(*final(info)) == exported(*old(info)),
{
    let ty = match decl.kind {
        ValueKind::I32 => Type::I32,
        ValueKind::I64 => Type::I64,
        ValueKind::F32 => Type::F32,
        ValueKind::F64 => Type::F64,
        ValueKind::V128 => Type::V128,
        ValueKind::ExternRef => Type::ExternRef,
        ValueKind::FuncRef => Type::FuncRef,
    };
    info.globals.push(GlobalType::new(ty, Mutability::from(decl.mutable))).as_u32()
}

/// `PrimaryMap::push` on the module's `global_initializers`, with
/// `GlobalInit::I32Const` or `GlobalInit::I64Const`: the initializer is appended.
/// Nothing else in the module changes. The key of the new entry holds 32 bits
/// and its constructor asserts that it is below `u32::MAX`.
#[verifier::external_body]
pub(crate) fn push_global_initializer(info: &mut ModuleInfo, init: ConstInit)
    requires
        global_initializers(*old(info)).len() < u32::MAX,
    ensures
        global_initializers(*final(info)) == global_initializers(*old(info)).push(Some(init)),
        declared_globals(*final(info)) == declared_globals(*old(info)),
        exported(*final(info)) == exported(*old(info)),
{
    let init = match init {
        ConstInit::I32(value) => GlobalInit::I32Const(value),
        ConstInit::I64(value) => GlobalInit::I64Const(value),
    };
    info.global_initializers.push(init);
}

/// `IndexMap::insert` on the module's `exports`, with `ExportIndex::Global` of
/// `GlobalIndex::from_u32`: afterwards `name` is exported and stands for the
/// global `index`, whatever it stood for before. Nothing else in the module
/// changes. `GlobalIndex::from_u32` asserts that the index is below `u32::MAX`.
#[verifier::external_body]
pub(crate) fn export_global(info: &mut ModuleInfo, name: String, index: u32)
    requires
        index < u32::MAX,
    ensures
        exported(*final(info)) == exported(*old(info)).insert(name@, Export::Global(index)),
        declared_globals(*final(info)) == declared_globals(*old(info)),
        global_initializers(*final(info)) == global_initializers(*old(info)),
{
    info.exports.insert(name, ExportIndex::Global(GlobalIndex::from_u32(index)));
}

} // verus!
