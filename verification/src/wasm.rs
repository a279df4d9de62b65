//! The WebAssembly engine, as far as the runtime bridge uses it.
//!
//! Nothing in this file is proved: each function hands one call to the
//! `wasmtime` crate, and its contract says what that crate's documentation
//! promises of the call.

use vstd::prelude::*;

verus! {

#[verifier::external_type_specification]
#[verifier::external_body]
pub struct ExEngine(wasmtime::Engine);

#[verifier::external_type_specification]
#[verifier::external_body]
pub struct ExConfig(wasmtime::Config);

#[verifier::external_type_specification]
#[verifier::external_body]
pub struct ExModule(wasmtime::Module);

#[verifier::external_type_specification]
#[verifier::external_body]
#[verifier::reject_recursive_types(T)]
pub struct ExStore<T: 'static>(wasmtime::Store<T>);

#[verifier::external_type_specification]
#[verifier::external_body]
pub struct ExInstance(wasmtime::Instance);

#[verifier::external_type_specification]
#[verifier::external_body]
pub struct ExMemory(wasmtime::Memory);

#[verifier::external_type_specification]
#[verifier::external_body]
#[verifier::reject_recursive_types(Params)]
#[verifier::reject_recursive_types(Results)]
pub struct ExTypedFunc<Params, Results>(wasmtime::TypedFunc<Params, Results>);

#[verifier::external_type_specification]
#[verifier::external_body]
pub struct ExWasmError(wasmtime::Error);

/// The identity of a store. It stays the same whatever is done to the store.
pub uninterp spec fn store_id(store: wasmtime::Store<()>) -> int;

/// The identity of the store that owns an instance.
pub uninterp spec fn instance_store(instance: wasmtime::Instance) -> int;

/// The identity of the store that owns a memory.
pub uninterp spec fn memory_store(memory: wasmtime::Memory) -> int;

/// The identity of the store that owns a function without parameters.
pub uninterp spec fn unit_func_store(func: wasmtime::TypedFunc<(), ()>) -> int;

/// The identity of the store that owns a function of two parameters.
pub uninterp spec fn pair_func_store(func: wasmtime::TypedFunc<(i32, i32), i32>) -> int;

/// The identity of the store that owns a function of six parameters.
pub uninterp spec fn six_func_store(
    func: wasmtime::TypedFunc<(i32, i32, i32, i32, i32, i32), i32>,
) -> int;

/// The size of a memory in pages.
pub uninterp spec fn memory_pages(store: wasmtime::Store<()>, memory: wasmtime::Memory) -> nat;

/// The bytes of a memory.
pub uninterp spec fn linear_memory(store: wasmtime::Store<()>, memory: wasmtime::Memory) -> Seq<u8>;

/// The text that an engine error displays as.
pub uninterp spec fn error_description(error: wasmtime::Error) -> Seq<char>;

/// What `Config::memory_reservation` has set in a configuration, if it
/// was called on it.
pub uninterp spec fn reservation_set(config: wasmtime::Config) -> Option<u64>;

/// What `Config::memory_guard_size` has set in a configuration, if it was
/// called on it.
pub uninterp spec fn guard_size_set(config: wasmtime::Config) -> Option<u64>;

/// What `Config::memory_reservation_for_growth` has set in a
/// configuration, if it was called on it.
pub uninterp spec fn growth_reservation_set(config: wasmtime::Config) -> Option<u64>;

/// Whether `Module::new` accepts the binary `wasm` on the engine `engine`:
/// the binary is a valid module that the engine can compile.
pub uninterp spec fn module_accepted(engine: wasmtime::Engine, wasm: Seq<u8>) -> bool;

/// `Config::new`: the default configuration.
#[verifier::external_body]
pub(crate) fn config_new() -> wasmtime::Config {
    wasmtime::Config::new()
}

/// `Config::memory_reservation`: sets how much address space is reserved
/// for a memory when it is created, and leaves the two other memory
/// settings as they were.
#[verifier::external_body]
pub(crate) fn config_memory_reservation(config: &mut wasmtime::Config, bytes: u64)
    ensures
        reservation_set(*final(config)) == Some(bytes),
        guard_size_set(*final(config)) == guard_size_set(*old(config)),
        growth_reservation_set(*final(config)) == growth_reservation_set(*old(config)),
{
    config.memory_reservation(bytes);
}

/// `Config::memory_guard_size`: sets the size of the guard region behind a
/// memory, and leaves the two other memory settings as they were.
#[verifier::external_body]
pub(crate) fn config_memory_guard_size(config: &mut wasmtime::Config, bytes: u64)
    ensures
        guard_size_set(*final(config)) == Some(bytes),
        reservation_set(*final(config)) == reservation_set(*old(config)),
        growth_reservation_set(*final(config)) == growth_reservation_set(*old(config)),
{
    config.memory_guard_size(bytes);
}

/// `Config::memory_reservation_for_growth`: sets how much address space is
/// reserved behind a memory that was moved to grow, and leaves the two
/// other memory settings as they were.
#[verifier::external_body]
pub(crate) fn config_memory_reservation_for_growth(config: &mut wasmtime::Config, bytes: u64)
    ensures
        growth_reservation_set(*final(config)) == Some(bytes),
        reservation_set(*final(config)) == reservation_set(*old(config)),
        guard_size_set(*final(config)) == guard_size_set(*old(config)),
{
    config.memory_reservation_for_growth(bytes);
}

/// `Engine::new`: an engine with the given configuration. Nothing is
/// claimed about which configurations it accepts.
#[verifier::external_body]
pub(crate) fn engine_new(config: &wasmtime::Config) -> Result<wasmtime::Engine, wasmtime::Error> {
    wasmtime::Engine::new(config)
}

/// `Module::new`: compiles a module from its binary. Whether it succeeds
/// depends on the engine and the bytes alone; that verdict is named
/// `module_accepted`, and nothing is claimed about which binaries it
/// accepts.
#[verifier::external_body]
pub(crate) fn module_new(engine: &wasmtime::Engine, wasm: &Vec<u8>) -> (r: Result<
    wasmtime::Module,
    wasmtime::Error,
>)
    ensures
        r is Ok <==> module_accepted(*engine, wasm@),
{
    wasmtime::Module::new(engine, wasm)
}

/// `Store::new`: a fresh store without host state.
#[verifier::external_body]
pub(crate) fn store_new(engine: &wasmtime::Engine) -> wasmtime::Store<()> {
    wasmtime::Store::new(engine, ())
}

/// `Instance::new` without imports: instantiates the module in the store
/// and runs its start function. The instance, if there is one, belongs to
/// the store.
#[verifier::external_body]
pub(crate) fn instance_new(store: &mut wasmtime::Store<()>, module: &wasmtime::Module) -> (r:
    Result<wasmtime::Instance, wasmtime::Error>)
    ensures
        store_id(*final(store)) == store_id(*old(store)),
        r matches Ok(instance) ==> instance_store(instance) == store_id(*old(store)),
{
    wasmtime::Instance::new(store, module, &[])
}

/// `Instance::get_memory`: the exported memory called `name`, if there is
/// one. It belongs to the store.
#[verifier::external_body]
pub(crate) fn instance_memory(
    instance: &wasmtime::Instance,
    store: &mut wasmtime::Store<()>,
    name: &str,
) -> (r: Option<wasmtime::Memory>)
    requires
        instance_store(*instance) == store_id(*old(store)),
    ensures
        store_id(*final(store)) == store_id(*old(store)),
        r matches Some(memory) ==> memory_store(memory) == store_id(*old(store)),
{
    instance.get_memory(store, name)
}

/// `Instance::get_typed_func` for `() -> ()`: the exported function called
/// `name`, if there is one of that type. It belongs to the store.
#[verifier::external_body]
pub(crate) fn unit_func(
    instance: &wasmtime::Instance,
    store: &mut wasmtime::Store<()>,
    name: &str,
) -> (r: Result<wasmtime::TypedFunc<(), ()>, wasmtime::Error>)
    requires
        instance_store(*instance) == store_id(*old(store)),
    ensures
        store_id(*final(store)) == store_id(*old(store)),
        r matches Ok(func) ==> unit_func_store(func) == store_id(*old(store)),
{
    instance.get_typed_func::<(), ()>(store, name)
}

/// `Instance::get_typed_func` for `(i32, i32) -> i32`.
#[verifier::external_body]
pub(crate) fn pair_func(
    instance: &wasmtime::Instance,
    store: &mut wasmtime::Store<()>,
    name: &str,
) -> (r: Result<wasmtime::TypedFunc<(i32, i32), i32>, wasmtime::Error>)
    requires
        instance_store(*instance) == store_id(*old(store)),
    ensures
        store_id(*final(store)) == store_id(*old(store)),
        r matches Ok(func) ==> pair_func_store(func) == store_id(*old(store)),
{
    instance.get_typed_func::<(i32, i32), i32>(store, name)
}

/// `Instance::get_typed_func` for `(i32, i32, i32, i32, i32, i32) -> i32`.
#[verifier::external_body]
pub(crate) fn six_func(
    instance: &wasmtime::Instance,
    store: &mut wasmtime::Store<()>,
    name: &str,
) -> (r: Result<wasmtime::TypedFunc<(i32, i32, i32, i32, i32, i32), i32>, wasmtime::Error>)
    requires
        instance_store(*instance) == store_id(*old(store)),
    ensures
        store_id(*final(store)) == store_id(*old(store)),
        r matches Ok(func) ==> six_func_store(func) == store_id(*old(store)),
{
    instance.get_typed_func::<(i32, i32, i32, i32, i32, i32), i32>(store, name)
}

/// `TypedFunc::call` for `() -> ()`: runs the module's code, which may
/// change the store in any way.
#[verifier::external_body]
pub(crate) fn call_unit(func: &wasmtime::TypedFunc<(), ()>, store: &mut wasmtime::Store<()>) -> (r:
    Result<(), wasmtime::Error>)
    requires
        unit_func_store(*func) == store_id(*old(store)),
    ensures
        store_id(*final(store)) == store_id(*old(store)),
{
    func.call(store, ())
}

/// `TypedFunc::call` for `(i32, i32) -> i32`.
#[verifier::external_body]
pub(crate) fn call_pair(
    func: &wasmtime::TypedFunc<(i32, i32), i32>,
    store: &mut wasmtime::Store<()>,
    a: i32,
    b: i32,
) -> (r: Result<i32, wasmtime::Error>)
    requires
        pair_func_store(*func) == store_id(*old(store)),
    ensures
        store_id(*final(store)) == store_id(*old(store)),
{
    func.call(store, (a, b))
}

/// `TypedFunc::call` for `(i32, i32, i32, i32, i32, i32) -> i32`.
#[verifier::external_body]
pub(crate) fn call_six(
    func: &wasmtime::TypedFunc<(i32, i32, i32, i32, i32, i32), i32>,
    store: &mut wasmtime::Store<()>,
    args: (i32, i32, i32, i32, i32, i32),
) -> (r: Result<i32, wasmtime::Error>)
    requires
        six_func_store(*func) == store_id(*old(store)),
    ensures
        store_id(*final(store)) == store_id(*old(store)),
{
    func.call(store, args)
}

/// `Memory::size`: the size of the memory in pages.
#[verifier::external_body]
pub(crate) fn memory_size(memory: &wasmtime::Memory, store: &wasmtime::Store<()>) -> (pages: u64)
    requires
        memory_store(*memory) == store_id(*store),
    ensures
        pages == memory_pages(*store, *memory),
{
    memory.size(store)
}

/// `Memory::grow`: adds `delta` pages to the memory and returns its
/// previous size; where it fails the size is as before.
#[verifier::external_body]
pub(crate) fn memory_grow(memory: &wasmtime::Memory, store: &mut wasmtime::Store<()>, delta: u64)
    -> (r: Result<u64, wasmtime::Error>)
    requires
        memory_store(*memory) == store_id(*old(store)),
    ensures
        store_id(*final(store)) == store_id(*old(store)),
        match r {
            Ok(previous) => previous == memory_pages(*old(store), *memory) && memory_pages(
                *final(store),
                *memory,
            ) == previous + delta,
            Err(_) => memory_pages(*final(store), *memory) == memory_pages(*old(store), *memory),
        },
{
    memory.grow(store, delta)
}

/// `Memory::data`: a copy of the bytes of the memory.
#[verifier::external_body]
pub(crate) fn memory_data(memory: &wasmtime::Memory, store: &wasmtime::Store<()>) -> (data: Vec<u8>)
    requires
        memory_store(*memory) == store_id(*store),
    ensures
        data@ == linear_memory(*store, *memory),
{
    memory.data(store).to_vec()
}

/// `Memory::data_size`: the length of the memory in bytes.
#[verifier::external_body]
pub(crate) fn memory_data_size(memory: &wasmtime::Memory, store: &wasmtime::Store<()>) -> (len:
    usize)
    requires
        memory_store(*memory) == store_id(*store),
    ensures
        len == linear_memory(*store, *memory).len(),
{
    memory.data_size(store)
}

/// `Memory::write`: overwrites the bytes from `offset` on with `bytes`
/// where they lie within the memory, and reports whether they did; the
/// rest of the memory and its size stay as they are, and a write that
/// would pass the end of the memory changes nothing.
#[verifier::external_body]
pub(crate) fn memory_write(
    memory: &wasmtime::Memory,
    store: &mut wasmtime::Store<()>,
    offset: usize,
    bytes: &Vec<u8>,
) -> (written: bool)
    requires
        memory_store(*memory) == store_id(*old(store)),
    ensures
        store_id(*final(store)) == store_id(*old(store)),
        memory_pages(*final(store), *memory) == memory_pages(*old(store), *memory),
        written == (offset + bytes@.len() <= linear_memory(*old(store), *memory).len()),
        written ==> linear_memory(*final(store), *memory) == linear_memory(
            *old(store),
            *memory,
        ).subrange(0, offset as int) + bytes@ + linear_memory(*old(store), *memory).subrange(
            offset + bytes@.len(),
            linear_memory(*old(store), *memory).len() as int,
        ),
        !written ==> linear_memory(*final(store), *memory) == linear_memory(*old(store), *memory),
{
    memory.write(store, offset, bytes).is_ok()
}

/// `Error`'s `Display`: the text of an engine error. The contract names
/// the text `error_description` and claims nothing of what it says.
#[verifier::external_body]
pub(crate) fn error_text(error: &wasmtime::Error) -> (r: String)
    ensures
        r@ == error_description(*error),
{
    format!("{error}")
}

/// How the error of `String::from_utf8` describes the fault in bytes that
/// are not valid UTF-8.
pub uninterp spec fn utf8_fault(bytes: Seq<u8>) -> Seq<char>;

/// `String::from_utf8`: the text that the bytes encode, where they are
/// valid UTF-8; otherwise the displayed text of the decoder's error. That
/// text depends on the bytes alone; it is named `utf8_fault`, and nothing
/// is claimed of what it says.
#[verifier::external_body]
pub(crate) fn text_from_utf8(bytes: Vec<u8>) -> (r: Result<String, String>)
    ensures
        match r {
            Ok(text) => vstd::utf8::valid_utf8(bytes@) && text@ == vstd::utf8::decode_utf8(bytes@),
            Err(detail) => !vstd::utf8::valid_utf8(bytes@) && detail@ == utf8_fault(bytes@),
        },
{
    match String::from_utf8(bytes) {
        Ok(text) => Ok(text),
        Err(e) => Err(format!("{e}")),
    }
}

} // verus!
