//! The embedded WebAssembly engine, as far as the drivers use it.
//!
//! The engine's values are opaque here. What the drivers must know of them to
//! call the engine safely (which store owns a function, which engine a linker
//! serves) is carried by uninterpreted names, and each call is made by one
//! function whose contract is taken on trust from the engine's documentation.

use vstd::prelude::*;
use crate::driver::{Compiler, Optimization};
use crate::guest::{Signature, ValueKind};
use crate::timing::HostClock;

verus! {

/// The settings from which an engine is made.
#[verifier::external_type_specification]
#[verifier::external_body]
pub struct ExConfig(wasmtime::Config);

/// The context in which modules are compiled and run.
#[verifier::external_type_specification]
#[verifier::external_body]
pub struct ExEngine(wasmtime::Engine);

/// A decoded and compiled module.
#[verifier::external_type_specification]
#[verifier::external_body]
pub struct ExModule(wasmtime::Module);

/// The container of everything that instances own, and of the host's data.
#[verifier::external_type_specification]
#[verifier::external_body]
#[verifier::reject_recursive_types(T)]
pub struct ExStore<T: 'static>(wasmtime::Store<T>);

/// The table of what the host offers to a module's imports.
#[verifier::external_type_specification]
#[verifier::external_body]
#[verifier::reject_recursive_types(T)]
pub struct ExLinker<T>(wasmtime::Linker<T>);

/// A module instantiated in a store.
#[verifier::external_type_specification]
#[verifier::external_body]
pub struct ExInstance(wasmtime::Instance);

/// A function that lives in a store.
#[verifier::external_type_specification]
#[verifier::external_body]
pub struct ExFunc(wasmtime::Func);

/// A linear memory that lives in a store.
#[verifier::external_type_specification]
#[verifier::external_body]
pub struct ExMemory(wasmtime::Memory);

/// The engine's error.
#[verifier::external_type_specification]
#[verifier::external_body]
pub struct ExError(wasmtime::Error);

/// Whether `config` still has its compiler. The engine's setters for the
/// compiler panic on a configuration without one.
pub uninterp spec fn compiler_enabled(config: wasmtime::Config) -> bool;

/// What `config` holds of the three settings that this library touches: the
/// compiler in its compiler settings, the optimization level if one has
/// been set, and the memory reservation if one has been set.
pub uninterp spec fn config_named(config: wasmtime::Config) -> (
    Option<Compiler>,
    Option<Optimization>,
    Option<u64>,
);

/// What the configuration that `engine` was made with held of the same three
/// settings.
pub uninterp spec fn engine_named(engine: wasmtime::Engine) -> (
    Option<Compiler>,
    Option<Optimization>,
    Option<u64>,
);

/// Whether `wasm` is the binary encoding of a valid WebAssembly module, as
/// the engine's decoder and validator judge it. The engine makes a module of
/// no other bytes.
pub uninterp spec fn is_module(wasm: Seq<u8>) -> bool;

/// The kinds of the parameters and of the results of the function that the
/// module encoded by `wasm` exports as `name`, in order, or nothing where it
/// exports no function of that name. What a module exports is written in its
/// bytes.
pub uninterp spec fn guest_export(wasm: Seq<u8>, name: Seq<char>) -> Option<
    (Seq<ValueKind>, Seq<ValueKind>),
>;

/// Whether the module encoded by `wasm` exports a linear memory as `name`,
/// one that is not shared between threads.
pub uninterp spec fn guest_memory(wasm: Seq<u8>, name: Seq<char>) -> bool;

/// The engine that `module` was compiled for.
pub uninterp spec fn module_engine(module: wasmtime::Module) -> wasmtime::Engine;

/// The bytes that `module` was decoded from.
pub uninterp spec fn module_source(module: wasmtime::Module) -> Seq<u8>;

/// The bytes of the module that `instance` was made of.
pub uninterp spec fn instance_source(instance: wasmtime::Instance) -> Seq<u8>;

/// The function that `instance` exports as `name`, if it exports one: what
/// `Instance::get_func` gives. The exports of an instance are those of its
/// module and stay as they are.
pub uninterp spec fn exported_func(instance: wasmtime::Instance, name: Seq<char>) -> Option<
    wasmtime::Func,
>;

/// The kinds of the parameters and of the results of `func`, in order: what
/// `Func::ty` gives. The type of a function stays as it is.
pub uninterp spec fn func_kinds(func: wasmtime::Func) -> (Seq<ValueKind>, Seq<ValueKind>);

/// The engine that `store` was made for.
pub uninterp spec fn store_engine(store: wasmtime::Store<i32>) -> wasmtime::Engine;

/// The engine that `linker` was made for.
pub uninterp spec fn linker_engine(linker: wasmtime::Linker<i32>) -> wasmtime::Engine;

/// Whether everything defined in `linker` is a host function that belongs to
/// no store, so that the linker can serve any store of its engine.
pub uninterp spec fn linker_store_free(linker: wasmtime::Linker<i32>) -> bool;

/// What tells `store` from every other store. The engine panics when it is
/// handed an instance, function or memory together with a store that does
/// not own it.
pub uninterp spec fn store_key(store: wasmtime::Store<i32>) -> int;

/// The key of the store that owns `instance`.
pub uninterp spec fn instance_owner(instance: wasmtime::Instance) -> int;

/// The key of the store that owns `func`.
pub uninterp spec fn func_owner(func: wasmtime::Func) -> int;

/// The key of the store that owns `memory`.
pub uninterp spec fn memory_owner(memory: wasmtime::Memory) -> int;

/// `Config::new`: the default configuration. Built with the optimizing
/// compiler, as the engine is for this crate, it comes with a compiler and
/// holds that one, the engine's own choice; no optimization level and no
/// memory reservation is set.
#[verifier::external_body]
pub(crate) fn config_new() -> (config: wasmtime::Config)
    ensures
        compiler_enabled(config),
        config_named(config) == (
            Some(Compiler::Auto.resolved()),
            None::<Optimization>,
            None::<u64>,
        ),
{
    wasmtime::Config::new()
}

/// `Config::strategy`: names the compiler. The setter panics on a
/// configuration without a compiler and leaves the compiler in place. The
/// configuration then holds the compiler named, or the engine's own choice
/// where the choice was left to it. It touches no other setting.
#[verifier::external_body]
pub(crate) fn config_strategy(config: &mut wasmtime::Config, compiler: Compiler)
    requires
        compiler_enabled(*old(config)),
    ensures
        compiler_enabled(*final(config)),
        config_named(*final(config)) == (
            Some(compiler.resolved()),
            config_named(*old(config)).1,
            config_named(*old(config)).2,
        ),
{
    config.strategy(
        match compiler {
            Compiler::Auto => wasmtime::Strategy::Auto,
            Compiler::Cranelift => wasmtime::Strategy::Cranelift,
            Compiler::Winch => wasmtime::Strategy::Winch,
        },
    );
}

/// `Config::cranelift_opt_level`: names the optimization level. The setter
/// panics on a configuration without a compiler and leaves the compiler in
/// place. It touches no other setting.
#[verifier::external_body]
pub(crate) fn config_opt_level(config: &mut wasmtime::Config, level: Optimization)
    requires
        compiler_enabled(*old(config)),
    ensures
        compiler_enabled(*final(config)),
        config_named(*final(config)) == (
            config_named(*old(config)).0,
            Some(level),
            config_named(*old(config)).2,
        ),
{
    config.cranelift_opt_level(
        match level {
            Optimization::Unoptimized => wasmtime::OptLevel::None,
            Optimization::Speed => wasmtime::OptLevel::Speed,
            Optimization::SpeedAndSize => wasmtime::OptLevel::SpeedAndSize,
        },
    );
}

/// `Config::memory_reservation`: sets the address space that is reserved for
/// each linear memory, in bytes. Every value is accepted. The compiler stays
/// in place. It touches no other setting.
#[verifier::external_body]
pub(crate) fn config_memory_reservation(config: &mut wasmtime::Config, bytes: u64)
    ensures
        compiler_enabled(*old(config)) ==> compiler_enabled(*final(config)),
        config_named(*final(config)) == (
            config_named(*old(config)).0,
            config_named(*old(config)).1,
            Some(bytes),
        ),
{
    config.memory_reservation(bytes);
}

/// `Engine::new`: an engine with the settings of `config`, or the engine's
/// error where the configuration is refused. Nothing is claimed of which it
/// is.
#[verifier::external_body]
pub(crate) fn engine_new(config: &wasmtime::Config) -> (made: Result<
    wasmtime::Engine,
    wasmtime::Error,
>)
    ensures
        made matches Ok(engine) ==> engine_named(engine) == config_named(*config),
{
    wasmtime::Engine::new(config)
}

/// `Module::new`: decodes, validates and compiles `bytes` for `engine`, or
/// gives the engine's error. A module is made of the binary encoding of a
/// valid module only; whether one is made of every such encoding is not
/// claimed, since the engine may refuse for want of a feature or of memory.
/// The module belongs to `engine` and remembers its bytes.
#[verifier::external_body]
pub(crate) fn module_new(engine: &wasmtime::Engine, bytes: &[u8]) -> (made: Result<
    wasmtime::Module,
    wasmtime::Error,
>)
    ensures
        made matches Ok(module) ==> {
            &&& is_module(bytes@)
            &&& module_engine(module) == *engine
            &&& module_source(module) == bytes@
        },
{
    wasmtime::Module::new(engine, bytes)
}

/// `Store::new`: an empty store for `engine` that holds `data`.
#[verifier::external_body]
pub(crate) fn store_new(engine: &wasmtime::Engine, data: i32) -> (store: wasmtime::Store<i32>)
    ensures
        store_engine(store) == *engine,
{
    wasmtime::Store::new(engine, data)
}

/// `Linker::new`: an empty linker for `engine`.
#[verifier::external_body]
pub(crate) fn linker_new(engine: &wasmtime::Engine) -> (linker: wasmtime::Linker<i32>)
    ensures
        linker_engine(linker) == *engine,
        linker_store_free(linker),
{
    wasmtime::Linker::new(engine)
}

/// `Linker::func_wrap`: defines, under `module` and `name`, a host function
/// without parameters that returns a reading of `clock`. Such a function
/// belongs to no store. The engine's error comes back where the name is
/// taken. The linker stays with its engine.
#[verifier::external_body]
pub(crate) fn linker_func_wrap(
    linker: &mut wasmtime::Linker<i32>,
    module: &str,
    name: &str,
    clock: HostClock,
) -> (defined: Result<(), wasmtime::Error>)
    ensures
        linker_engine(*final(linker)) == linker_engine(*old(linker)),
        linker_store_free(*old(linker)) ==> linker_store_free(*final(linker)),
{
    linker.func_wrap(module, name, move || clock.now()).map(|_| ())
}

/// `Linker::instantiate`: instantiates `module` in `store`, resolving its
/// imports from `linker`, and runs its start function. The engine panics
/// where linker and store are of different engines or the linker holds an
/// item of another store, and it can panic where the module was compiled for
/// another engine than the linker's, in which it looks up the types of the
/// linker's functions. The instance belongs to `store` and is made of
/// `module`. The call returns when the start function does.
#[verifier::external_body]
pub(crate) fn linker_instantiate(
    linker: &wasmtime::Linker<i32>,
    store: &mut wasmtime::Store<i32>,
    module: &wasmtime::Module,
) -> (made: Result<wasmtime::Instance, wasmtime::Error>)
    requires
        linker_engine(*linker) == store_engine(*old(store)),
        module_engine(*module) == linker_engine(*linker),
        linker_store_free(*linker),
    ensures
        store_key(*final(store)) == store_key(*old(store)),
        made matches Ok(instance) ==> {
            &&& instance_owner(instance) == store_key(*old(store))
            &&& instance_source(instance) == module_source(*module)
        },
{
    linker.instantiate(store, module)
}

/// `Instance::new` without imports: instantiates `module` in `store` and
/// runs its start function; the engine's error comes back where the module
/// imports anything, or was compiled for another engine than the store's.
/// The instance belongs to `store` and is made of `module`. The call returns
/// when the start function does.
#[verifier::external_body]
pub(crate) fn instance_new(store: &mut wasmtime::Store<i32>, module: &wasmtime::Module) -> (made:
    Result<wasmtime::Instance, wasmtime::Error>)
    ensures
        store_key(*final(store)) == store_key(*old(store)),
        made matches Ok(instance) ==> {
            &&& instance_owner(instance) == store_key(*old(store))
            &&& instance_source(instance) == module_source(*module)
        },
{
    wasmtime::Instance::new(store, module, &[])
}

/// `Instance::get_func`: the function that the instance exports as `name`,
/// if there is one. The engine panics where `store` does not own the
/// instance. The function belongs to the same store. It is the function that
/// the instance's module exports under that name, with the parameters and
/// results that the module's bytes give it.
#[verifier::external_body]
pub(crate) fn instance_get_func(
    instance: &wasmtime::Instance,
    store: &mut wasmtime::Store<i32>,
    name: &str,
) -> (found: Option<wasmtime::Func>)
    requires
        instance_owner(*instance) == store_key(*old(store)),
    ensures
        store_key(*final(store)) == store_key(*old(store)),
        found == exported_func(*instance, name@),
        found matches Some(func) ==> func_owner(func) == store_key(*old(store)),
        guest_export(instance_source(*instance), name@) == match found {
            Some(func) => Some(func_kinds(func)),
            None => None,
        },
{
    instance.get_func(store, name)
}

/// `Instance::get_memory`: the memory that the instance exports as `name`,
/// if there is one. The engine panics where `store` does not own the
/// instance. The memory belongs to the same store. There is one exactly
/// where the instance's module exports a memory under that name.
#[verifier::external_body]
pub(crate) fn instance_get_memory(
    instance: &wasmtime::Instance,
    store: &mut wasmtime::Store<i32>,
    name: &str,
) -> (found: Option<wasmtime::Memory>)
    requires
        instance_owner(*instance) == store_key(*old(store)),
    ensures
        store_key(*final(store)) == store_key(*old(store)),
        found matches Some(memory) ==> memory_owner(memory) == store_key(*old(store)),
        found is Some <==> guest_memory(instance_source(*instance), name@),
{
    instance.get_memory(store, name)
}

/// `Func::ty`: the kinds of the function's parameters and results, in order.
/// The engine panics where `store` does not own the function.
#[verifier::external_body]
pub(crate) fn func_signature(func: &wasmtime::Func, store: &wasmtime::Store<i32>) -> (signature:
    Signature)
    requires
        func_owner(*func) == store_key(*store),
    ensures
        signature@ == func_kinds(*func),
{
    let kind = |ty: wasmtime::ValType| match ty {
        wasmtime::ValType::I32 => ValueKind::I32,
        wasmtime::ValType::I64 => ValueKind::I64,
        wasmtime::ValType::F32 => ValueKind::F32,
        wasmtime::ValType::F64 => ValueKind::F64,
        wasmtime::ValType::V128 => ValueKind::V128,
        wasmtime::ValType::Ref(_) => ValueKind::Ref,
    };
    let ty = func.ty(store);
    Signature { params: ty.params().map(kind).collect(), results: ty.results().map(kind).collect() }
}

/// `Func::call`: calls the function with `args` as 32-bit integers and with
/// `result_count` result slots, and hands back each slot as its 32-bit
/// integer, or as nothing if it holds a value of another kind. The engine's
/// error comes back where the arguments or the number of slots do not fit
/// the function, or the guest traps. After a call that returned, the
/// function has as many results as there are slots, and each slot holds a
/// value of the kind of its result, so that it holds a 32-bit integer
/// exactly where the result is one. The engine panics where `store` does
/// not own the function. The call returns when the guest does.
#[verifier::external_body]
pub(crate) fn func_call(
    func: &wasmtime::Func,
    store: &mut wasmtime::Store<i32>,
    args: &Vec<i32>,
    result_count: usize,
) -> (outcome: Result<Vec<Option<i32>>, wasmtime::Error>)
    requires
        func_owner(*func) == store_key(*old(store)),
    ensures
        store_key(*final(store)) == store_key(*old(store)),
        outcome matches Ok(slots) ==> {
            &&& slots@.len() == result_count
            &&& func_kinds(*func).1.len() == result_count
            &&& forall|i: int|
                0 <= i < result_count ==> ((#[trigger] slots@[i]) is Some <==> func_kinds(
                    *func,
                ).1[i] == ValueKind::I32)
        },
{
    let params: Vec<wasmtime::Val> = args.iter().map(|arg| wasmtime::Val::I32(*arg)).collect();
    let mut results = vec![wasmtime::Val::I32(0); result_count];
    func.call(store, &params, &mut results)?;
    Ok(results.iter().map(|slot| slot.i32()).collect())
}

/// `Memory::data_size`: the size of the memory in bytes. The engine panics
/// where `store` does not own the memory.
#[verifier::external_body]
pub(crate) fn memory_data_size(memory: &wasmtime::Memory, store: &wasmtime::Store<i32>) -> (bytes:
    usize)
    requires
        memory_owner(*memory) == store_key(*store),
{
    memory.data_size(store)
}

} // verus!
