//! The Wasm execution layer: compiled modules, their instances and stores,
//! and the typed call paths. Every entry into the wasmtime engine goes
//! through a trusted wrapper; everything around those calls — the
//! bookkeeping of loaded modules, the export table, and argument
//! marshalling decisions — is verified.
//!
//! An instance, its store and its linear memory form one ownership unit:
//! a `LoadedModule` owns all three, and a call borrows the unit mutably,
//! so no two calls ever touch the same store at once.

use vstd::prelude::*;
use crate::manager::ModuleMetadata;
use crate::signature::{FuncDecl, FuncSignature};

verus! {

/// The guest's input is written at this fixed linear-memory offset.
pub const GUEST_INPUT_OFFSET: usize = 1024;

#[verifier::external_type_specification]
#[verifier::external_body]
pub struct ExEngine(wasmtime::Engine);

#[verifier::external_type_specification]
#[verifier::external_body]
pub struct ExModule(wasmtime::Module);

#[verifier::external_type_specification]
#[verifier::external_body]
#[verifier::reject_recursive_types(T)]
pub struct ExStore<T: 'static>(wasmtime::Store<T>);

#[verifier::external_type_specification]
#[verifier::external_body]
pub struct ExInstance(wasmtime::Instance);

#[verifier::external_type_specification]
#[verifier::external_body]
pub struct ExMemory(wasmtime::Memory);

#[verifier::external_type_specification]
#[verifier::external_body]
#[verifier::reject_recursive_types(Params)]
#[verifier::reject_recursive_types(Results)]
pub struct ExTypedFunc<Params, Results>(wasmtime::TypedFunc<Params, Results>);

#[verifier::external_type_specification]
#[verifier::external_body]
pub struct ExWasmtimeError(wasmtime::Error);

#[verifier::external_type_specification]
#[verifier::external_body]
pub struct ExValType(wasmtime::ValType);

/// Relies on wasmtime's `Config` and `Engine::new`: a default engine,
/// with linear-memory reservations kept small so the host runs inside a
/// constrained address space.
#[verifier::external_body]
fn engine_default() -> wasmtime::Engine {
    let mut c = wasmtime::Config::new();
    c.memory_reservation(1 << 22);
    c.memory_guard_size(1 << 16);
    c.memory_reservation_for_growth(1 << 20);
    wasmtime::Engine::new(&c).unwrap_or_else(|_| wasmtime::Engine::default())
}

/// Relies on wasmtime's `Module::new`: compiles a binary module with the
/// given engine.
#[verifier::external_body]
fn module_new(engine: &wasmtime::Engine, bytes: &[u8]) -> Result<
    wasmtime::Module,
    wasmtime::Error,
> {
    wasmtime::Module::new(engine, bytes)
}

/// Relies on wasmtime's `Store::new`, with unit data.
#[verifier::external_body]
fn store_new(engine: &wasmtime::Engine) -> wasmtime::Store<()> {
    wasmtime::Store::new(engine, ())
}

/// Relies on wasmtime's `Instance::new`. The import list is empty:
/// guests receive no ambient capabilities.
#[verifier::external_body]
fn instance_new(store: &mut wasmtime::Store<()>, module: &wasmtime::Module) -> Result<
    wasmtime::Instance,
    wasmtime::Error,
> {
    wasmtime::Instance::new(store, module, &[])
}

/// Relies on wasmtime's `ValType`: maps each engine value type to the
/// model type, coarsening every non-function reference to `ExternRef`.
#[verifier::external_body]
fn valtype_of(t: &wasmtime::ValType) -> crate::signature::ValueType {
    match t {
        wasmtime::ValType::I32 => crate::signature::ValueType::I32,
        wasmtime::ValType::I64 => crate::signature::ValueType::I64,
        wasmtime::ValType::F32 => crate::signature::ValueType::F32,
        wasmtime::ValType::F64 => crate::signature::ValueType::F64,
        wasmtime::ValType::V128 => crate::signature::ValueType::V128,
        wasmtime::ValType::Ref(r) => match r.heap_type() {
            wasmtime::HeapType::Func => crate::signature::ValueType::FuncRef,
            _ => crate::signature::ValueType::ExternRef,
        },
    }
}

/// Relies on wasmtime's `Module::exports`, `ExportType::name` and
/// `ExportType::ty`: the module's function exports, each with its name
/// and signature. What a module exports is opaque to the verifier, so
/// nothing is stated of the list; all logic over it is verified for every
/// possible list.
#[verifier::external_body]
fn module_export_functions(module: &wasmtime::Module) -> Vec<FuncDecl> {
    let mut out = Vec::new();
    for e in module.exports() {
        if let wasmtime::ExternType::Func(ft) = e.ty() {
            let params = ft.params().map(|t| valtype_of(&t)).collect();
            let results = ft.results().map(|t| valtype_of(&t)).collect();
            out.push(
                FuncDecl {
                    name: e.name().as_bytes().to_vec(),
                    signature: FuncSignature { params, results },
                },
            );
        }
    }
    out
}

/// Relies on wasmtime's `Instance::get_typed_func` at type
/// `(i32, i32) -> i32`; the name bytes are decoded as UTF-8 first.
#[verifier::external_body]
fn get_typed_func_pair(
    instance: &wasmtime::Instance,
    store: &mut wasmtime::Store<()>,
    name: &[u8],
) -> Result<wasmtime::TypedFunc<(i32, i32), i32>, wasmtime::Error> {
    let s = core::str::from_utf8(name)?;
    instance.get_typed_func::<(i32, i32), i32>(store, s)
}

/// Relies on wasmtime's `Instance::get_typed_func` at type `() -> i32`.
#[verifier::external_body]
fn get_typed_func_unit(
    instance: &wasmtime::Instance,
    store: &mut wasmtime::Store<()>,
    name: &[u8],
) -> Result<wasmtime::TypedFunc<(), i32>, wasmtime::Error> {
    let s = core::str::from_utf8(name)?;
    instance.get_typed_func::<(), i32>(store, s)
}

/// Relies on wasmtime's `TypedFunc::call`. The guest decides the result,
/// so nothing is stated of it; callers are verified for every value.
#[verifier::external_body]
fn typed_call_pair(
    f: &wasmtime::TypedFunc<(i32, i32), i32>,
    store: &mut wasmtime::Store<()>,
    a: i32,
    b: i32,
) -> Result<i32, wasmtime::Error> {
    f.call(store, (a, b))
}

/// Relies on wasmtime's `TypedFunc::call` with no arguments.
#[verifier::external_body]
fn typed_call_unit(
    f: &wasmtime::TypedFunc<(), i32>,
    store: &mut wasmtime::Store<()>,
) -> Result<i32, wasmtime::Error> {
    f.call(store, ())
}

/// Relies on wasmtime's `Instance::get_memory`.
#[verifier::external_body]
fn instance_get_memory(
    instance: &wasmtime::Instance,
    store: &mut wasmtime::Store<()>,
    name: &str,
) -> Option<wasmtime::Memory> {
    instance.get_memory(store, name)
}

/// Relies on wasmtime's `Memory::write`: copies the bytes into linear
/// memory at the offset, or fails without writing when out of bounds.
#[verifier::external_body]
fn memory_write(
    memory: &wasmtime::Memory,
    store: &mut wasmtime::Store<()>,
    offset: usize,
    data: &[u8],
) -> Result<(), wasmtime::Error> {
    Ok(memory.write(store, offset, data)?)
}

/// Relies on the `Display` form of wasmtime's `Error`.
#[verifier::external_body]
fn error_text(e: &wasmtime::Error) -> Vec<u8> {
    format!("{e}").into_bytes()
}

/// Why an execution-layer operation failed.
#[derive(Debug)]
pub enum ExecError {
    /// No module of that name is loaded.
    ModuleNotLoaded,
    /// The module exports no linear memory named `memory`.
    NoMemoryExport,
    /// The engine refused a compile, instantiation, lookup or call; the
    /// engine's message is carried along.
    Wasm { detail: Vec<u8> },
}

/// A fully loaded module: metadata, compiled artifact, instance, the
/// store that owns the instance's memory, and the export table recorded
/// at load time.
pub struct LoadedModule {
    pub metadata: ModuleMetadata,
    pub module: wasmtime::Module,
    pub instance: wasmtime::Instance,
    pub store: wasmtime::Store<()>,
    pub exports: Vec<FuncDecl>,
}

/// No two loaded modules share a name.
pub open spec fn modules_wf(s: Seq<LoadedModule>) -> bool {
    forall|i: int, j: int| 0 <= i < j < s.len() ==> s[i].metadata.name@ != s[j].metadata.name@
}

/// A module of the given name is loaded.
pub open spec fn spec_module_loaded(s: Seq<LoadedModule>, name: Seq<u8>) -> bool {
    exists|i: int| 0 <= i < s.len() && s[i].metadata.name@ == name
}

/// The export table of some module has an export of the given name.
pub open spec fn spec_has_export(exports: Seq<FuncDecl>, fname: Seq<u8>) -> bool {
    exists|j: int| 0 <= j < exports.len() && exports[j].name@ == fname
}

/// Everything but the stores is unchanged: same modules, same metadata,
/// same export tables.
pub open spec fn modules_preserved(a: Seq<LoadedModule>, b: Seq<LoadedModule>) -> bool {
    &&& b.len() == a.len()
    &&& forall|i: int| 0 <= i < a.len() ==> b[i].metadata == a[i].metadata && b[i].exports@
        == a[i].exports@
}

/// The Wasm execution layer.
pub struct WasmExecutor {
    pub engine: wasmtime::Engine,
    pub modules: Vec<LoadedModule>,
}

impl WasmExecutor {
    /// A fresh executor with a default engine and nothing loaded.
    pub fn new() -> (r: Self)
        ensures
            r.modules@.len() == 0,
            modules_wf(r.modules@),
    {
        WasmExecutor { engine: engine_default(), modules: Vec::new() }
    }

    /// The index of the loaded module with the given name.
    fn find_module(&self, name: &[u8]) -> (r: Option<usize>)
        ensures
            match r {
                Some(i) => i < self.modules@.len() && self.modules@[i as int].metadata.name@
                    == name@,
                None => !spec_module_loaded(self.modules@, name@),
            },
    {
        let mut i: usize = 0;
        while i < self.modules.len()
            invariant
                0 <= i <= self.modules@.len(),
                forall|j: int| 0 <= j < i ==> self.modules@[j].metadata.name@ != name@,
            decreases self.modules@.len() - i,
        {
            if crate::text::bytes_eq(self.modules[i].metadata.name.as_slice(), name) {
                return Some(i);
            }
            i = i + 1;
        }
        None
    }

    pub fn is_module_loaded(&self, name: &[u8]) -> (r: bool)
        ensures
            r == spec_module_loaded(self.modules@, name@),
    {
        self.find_module(name).is_some()
    }

    /// Compiles and instantiates the given bytes and records the module
    /// under its metadata name, replacing any module of the same name.
    /// On failure the executor is unchanged.
    pub fn load_module_from_bytes(&mut self, metadata: ModuleMetadata, bytes: &[u8]) -> (r:
        Result<(), ExecError>)
        requires
            modules_wf(old(self).modules@),
        ensures
            modules_wf(final(self).modules@),
            r is Err ==> final(self).modules@ == old(self).modules@,
            r is Ok ==> spec_module_loaded(final(self).modules@, metadata.name@),
            r is Ok ==> exists|i: int| 0 <= i < final(self).modules@.len()
                && final(self).modules@[i].metadata == metadata,
            forall|j: int| 0 <= j < old(self).modules@.len()
                && old(self).modules@[j].metadata.name@ != metadata.name@
                ==> exists|k: int| 0 <= k < final(self).modules@.len()
                && final(self).modules@[k] == old(self).modules@[j],
    {
        let module = match module_new(&self.engine, bytes) {
            Ok(m) => m,
            Err(e) => {
                return Err(ExecError::Wasm { detail: error_text(&e) });
            },
        };
        let mut store = store_new(&self.engine);
        let instance = match instance_new(&mut store, &module) {
            Ok(i) => i,
            Err(e) => {
                return Err(ExecError::Wasm { detail: error_text(&e) });
            },
        };
        let exports = module_export_functions(&module);
        let ghost nm = metadata.name@;
        let lm = LoadedModule { metadata, module, instance, store, exports };
        let ghost s0 = self.modules@;
        match self.find_module(lm.metadata.name.as_slice()) {
            Option::Some(i) => {
                self.modules.remove(i);
                self.modules.push(lm);
                proof {
                    let s2 = self.modules@;
                    assert(s2[s2.len() - 1].metadata.name@ == nm);
                    assert forall|j: int|
                        0 <= j < s0.len() && s0[j].metadata.name@ != nm implies exists|k: int|
                        0 <= k < s2.len() && s2[k] == s0[j] by {
                        if j < i {
                            assert(s2[j] == s0[j]);
                        } else {
                            assert(j > i);
                            assert(s2[j - 1] == s0[j]);
                        }
                    }
                    assert forall|a: int, b: int|
                        0 <= a < b < s2.len() implies s2[a].metadata.name@
                        != s2[b].metadata.name@ by {
                        let a0: int = if a < i { a } else { a + 1 };
                        if b < s2.len() - 1 {
                            let b0: int = if b < i { b } else { b + 1 };
                            assert(s2[a] == s0[a0] && s2[b] == s0[b0]);
                        } else {
                            assert(s2[a] == s0[a0]);
                            if a0 != i {
                                assert(s0[a0].metadata.name@ != s0[i as int].metadata.name@);
                            }
                        }
                    }
                }
            },
            Option::None => {
                self.modules.push(lm);
                proof {
                    let s2 = self.modules@;
                    assert(s2[s2.len() - 1].metadata.name@ == nm);
                    assert forall|j: int|
                        0 <= j < s0.len() && s0[j].metadata.name@ != nm implies exists|k: int|
                        0 <= k < s2.len() && s2[k] == s0[j] by {
                        assert(s2[j] == s0[j]);
                    }
                }
            },
        }
        Ok(())
    }

    /// Removes the named module. Fails, changing nothing, when it is not
    /// loaded.
    pub fn unload_module(&mut self, name: &[u8]) -> (r: Result<(), ExecError>)
        requires
            modules_wf(old(self).modules@),
        ensures
            modules_wf(final(self).modules@),
            r is Ok <==> spec_module_loaded(old(self).modules@, name@),
            r is Err ==> final(self).modules@ == old(self).modules@,
            !spec_module_loaded(final(self).modules@, name@),
            forall|j: int| 0 <= j < old(self).modules@.len()
                && old(self).modules@[j].metadata.name@ != name@ ==> exists|k: int|
                0 <= k < final(self).modules@.len() && final(self).modules@[k]
                == old(self).modules@[j],
    {
        let ghost s0 = self.modules@;
        match self.find_module(name) {
            Option::Some(i) => {
                self.modules.remove(i);
                proof {
                    let s2 = self.modules@;
                    assert forall|j: int|
                        0 <= j < s0.len() && s0[j].metadata.name@ != name@ implies exists|k: int|
                        0 <= k < s2.len() && s2[k] == s0[j] by {
                        if j < i {
                            assert(s2[j] == s0[j]);
                        } else {
                            assert(j > i);
                            assert(s2[j - 1] == s0[j]);
                        }
                    }
                    assert forall|k: int| 0 <= k < s2.len() implies s2[k].metadata.name@
                        != name@ by {
                        if k < i {
                            assert(s2[k] == s0[k]);
                        } else {
                            assert(s2[k] == s0[k + 1]);
                        }
                    }
                    assert forall|a: int, b: int|
                        0 <= a < b < s2.len() implies s2[a].metadata.name@
                        != s2[b].metadata.name@ by {
                        let a0: int = if a < i { a } else { a + 1 };
                        let b0: int = if b < i { b } else { b + 1 };
                        assert(s2[a] == s0[a0] && s2[b] == s0[b0]);
                    }
                }
                Ok(())
            },
            Option::None => Err(ExecError::ModuleNotLoaded),
        }
    }

    /// The names of the loaded modules.
    pub fn get_loaded_modules(&self) -> (r: Vec<Vec<u8>>)
        ensures
            r@.len() == self.modules@.len(),
            forall|i: int| 0 <= i < r@.len() ==> r@[i]@ == self.modules@[i].metadata.name@,
    {
        let mut r: Vec<Vec<u8>> = Vec::new();
        let mut i: usize = 0;
        while i < self.modules.len()
            invariant
                0 <= i <= self.modules@.len(),
                r@.len() == i,
                forall|j: int| 0 <= j < i ==> r@[j]@ == self.modules@[j].metadata.name@,
            decreases self.modules@.len() - i,
        {
            r.push(crate::text::copy_bytes(&self.modules[i].metadata.name));
            i = i + 1;
        }
        r
    }

    /// Every module's exported function names, one entry per loaded
    /// module, in load order.
    pub fn get_all_functions(&self) -> (r: Vec<(Vec<u8>, Vec<Vec<u8>>)>)
        ensures
            r@.len() == self.modules@.len(),
            forall|i: int|
                #![trigger r@[i]]
                0 <= i < r@.len() ==> r@[i].0@ == self.modules@[i].metadata.name@
                    && r@[i].1@.len() == self.modules@[i].exports@.len() && (forall|k: int|
                    0 <= k < r@[i].1@.len() ==> r@[i].1@[k]@
                        == self.modules@[i].exports@[k].name@),
    {
        let mut r: Vec<(Vec<u8>, Vec<Vec<u8>>)> = Vec::new();
        let mut i: usize = 0;
        while i < self.modules.len()
            invariant
                0 <= i <= self.modules@.len(),
                r@.len() == i,
                forall|j: int|
                    #![trigger r@[j]]
                    0 <= j < i ==> r@[j].0@ == self.modules@[j].metadata.name@ && r@[j].1@.len()
                        == self.modules@[j].exports@.len() && (forall|k: int|
                        0 <= k < r@[j].1@.len() ==> r@[j].1@[k]@
                            == self.modules@[j].exports@[k].name@),
            decreases self.modules@.len() - i,
        {
            let exports = &self.modules[i].exports;
            let mut names: Vec<Vec<u8>> = Vec::new();
            let mut k: usize = 0;
            while k < exports.len()
                invariant
                    0 <= k <= exports@.len(),
                    names@.len() == k,
                    forall|j: int| 0 <= j < k ==> names@[j]@ == exports@[j].name@,
                decreases exports@.len() - k,
            {
                names.push(crate::text::copy_bytes(&exports[k].name));
                k = k + 1;
            }
            r.push((crate::text::copy_bytes(&self.modules[i].metadata.name), names));
            i = i + 1;
        }
        r
    }

    /// The function names exported by the named module.
    pub fn get_module_functions(&self, module_name: &[u8]) -> (r: Result<Vec<Vec<u8>>, ExecError>)
        ensures
            r is Ok <==> spec_module_loaded(self.modules@, module_name@),
            match r {
                Ok(names) => exists|i: int|
                    #![trigger self.modules@[i]]
                    0 <= i < self.modules@.len() && self.modules@[i].metadata.name@ == module_name@
                        && names@.len() == self.modules@[i].exports@.len() && (forall|k: int|
                        0 <= k < names@.len() ==> names@[k]@
                            == self.modules@[i].exports@[k].name@),
                Err(e) => e is ModuleNotLoaded,
            },
    {
        let idx = match self.find_module(module_name) {
            Option::Some(i) => i,
            Option::None => {
                return Err(ExecError::ModuleNotLoaded);
            },
        };
        let exports = &self.modules[idx].exports;
        let mut names: Vec<Vec<u8>> = Vec::new();
        let mut k: usize = 0;
        while k < exports.len()
            invariant
                0 <= k <= exports@.len(),
                names@.len() == k,
                forall|j: int| 0 <= j < k ==> names@[j]@ == exports@[j].name@,
            decreases exports@.len() - k,
        {
            names.push(crate::text::copy_bytes(&exports[k].name));
            k = k + 1;
        }
        Ok(names)
    }

    /// The signature of the named export of the named module: the first
    /// export of that name.
    pub fn get_function_signature(&self, module_name: &[u8], function_name: &[u8]) -> (r: Result<
        FuncSignature,
        ExecError,
    >)
        requires
            modules_wf(self.modules@),
        ensures
            r is Ok <==> exists|i: int|
                #![trigger self.modules@[i]]
                0 <= i < self.modules@.len() && self.modules@[i].metadata.name@ == module_name@
                    && spec_has_export(self.modules@[i].exports@, function_name@),
            match r {
                Ok(sig) => exists|i: int|
                    #![trigger self.modules@[i]]
                    0 <= i < self.modules@.len() && self.modules@[i].metadata.name@ == module_name@
                        && exists|j: int|
                        0 <= j < self.modules@[i].exports@.len()
                            && self.modules@[i].exports@[j].name@ == function_name@
                            && sig.params@ == self.modules@[i].exports@[j].signature.params@
                            && sig.results@ == self.modules@[i].exports@[j].signature.results@,
                Err(e) => e is ModuleNotLoaded || e is Wasm,
            },
    {
        let idx = match self.find_module(module_name) {
            Option::Some(i) => i,
            Option::None => {
                return Err(ExecError::ModuleNotLoaded);
            },
        };
        let exports = &self.modules[idx].exports;
        let mut k: usize = 0;
        while k < exports.len()
            invariant
                0 <= k <= exports@.len(),
                0 <= idx < self.modules@.len(),
                self.modules@[idx as int].metadata.name@ == module_name@,
                exports@ == self.modules@[idx as int].exports@,
                forall|j: int| 0 <= j < k ==> exports@[j].name@ != function_name@,
            decreases exports@.len() - k,
        {
            if crate::text::bytes_eq(exports[k].name.as_slice(), function_name) {
                let sig = exports[k].signature.duplicate();
                proof {
                    assert(0 <= idx < self.modules@.len());
                    assert(self.modules@[idx as int].metadata.name@ == module_name@);
                    assert(exports@ == self.modules@[idx as int].exports@);
                    assert(exports@[k as int].name@ == function_name@);
                    assert(spec_has_export(self.modules@[idx as int].exports@, function_name@));
                }
                return Ok(sig);
            }
            k = k + 1;
        }
        proof {
            assert forall|i: int|
                0 <= i < self.modules@.len() && self.modules@[i].metadata.name@ == module_name@
                    implies !spec_has_export(self.modules@[i].exports@, function_name@) by {
                if i != idx {
                    assert(self.modules@[i].metadata.name@ != self.modules@[
                        idx as int
                    ].metadata.name@);
                }
            }
        }
        Err(ExecError::Wasm { detail: vstd::slice::slice_to_vec("function not found".as_bytes()) })
    }

    /// Calls a two-integer export directly.
    pub fn call_function_i32_i32_to_i32(
        &mut self,
        module_name: &[u8],
        function_name: &[u8],
        a: i32,
        b: i32,
    ) -> (r: Result<i32, ExecError>)
        ensures
            modules_preserved(old(self).modules@, final(self).modules@),
            r is Ok ==> spec_module_loaded(old(self).modules@, module_name@),
            !spec_module_loaded(old(self).modules@, module_name@) ==> r
                == Err::<i32, ExecError>(ExecError::ModuleNotLoaded),
            spec_module_loaded(old(self).modules@, module_name@) ==> !(r matches Err(e)
                && e is ModuleNotLoaded),
    {
        let idx = match self.find_module(module_name) {
            Option::Some(i) => i,
            Option::None => {
                return Err(ExecError::ModuleNotLoaded);
            },
        };
        let ghost s0 = self.modules@;
        let mut lm = self.modules.remove(idx);
        let out = match get_typed_func_pair(&lm.instance, &mut lm.store, function_name) {
            Ok(f) => match typed_call_pair(&f, &mut lm.store, a, b) {
                Ok(v) => Ok(v),
                Err(e) => Err(ExecError::Wasm { detail: error_text(&e) }),
            },
            Err(e) => Err(ExecError::Wasm { detail: error_text(&e) }),
        };
        self.modules.insert(idx, lm);
        proof {
            lemma_put_back(s0, self.modules@, idx as int);
        }
        out
    }

    /// Calls a no-argument export directly.
    pub fn call_function_no_params_to_i32(&mut self, module_name: &[u8], function_name: &[u8]) -> (
        r: Result<i32, ExecError>)
        ensures
            modules_preserved(old(self).modules@, final(self).modules@),
            r is Ok ==> spec_module_loaded(old(self).modules@, module_name@),
            !spec_module_loaded(old(self).modules@, module_name@) ==> r
                == Err::<i32, ExecError>(ExecError::ModuleNotLoaded),
            spec_module_loaded(old(self).modules@, module_name@) ==> !(r matches Err(e)
                && e is ModuleNotLoaded),
    {
        let idx = match self.find_module(module_name) {
            Option::Some(i) => i,
            Option::None => {
                return Err(ExecError::ModuleNotLoaded);
            },
        };
        let ghost s0 = self.modules@;
        let mut lm = self.modules.remove(idx);
        let out = match get_typed_func_unit(&lm.instance, &mut lm.store, function_name) {
            Ok(f) => match typed_call_unit(&f, &mut lm.store) {
                Ok(v) => Ok(v),
                Err(e) => Err(ExecError::Wasm { detail: error_text(&e) }),
            },
            Err(e) => Err(ExecError::Wasm { detail: error_text(&e) }),
        };
        self.modules.insert(idx, lm);
        proof {
            lemma_put_back(s0, self.modules@, idx as int);
        }
        out
    }

    /// Calls a pointer/length export: writes the input bytes into the
    /// module's exported `memory` at the fixed offset, then invokes the
    /// function with that offset and the input length.
    pub fn call_function_ptr_len_to_i32(
        &mut self,
        module_name: &[u8],
        function_name: &[u8],
        data: &[u8],
    ) -> (r: Result<i32, ExecError>)
        ensures
            modules_preserved(old(self).modules@, final(self).modules@),
            r is Ok ==> spec_module_loaded(old(self).modules@, module_name@),
            !spec_module_loaded(old(self).modules@, module_name@) ==> r
                == Err::<i32, ExecError>(ExecError::ModuleNotLoaded),
            spec_module_loaded(old(self).modules@, module_name@) ==> !(r matches Err(e)
                && e is ModuleNotLoaded),
    {
        let idx = match self.find_module(module_name) {
            Option::Some(i) => i,
            Option::None => {
                return Err(ExecError::ModuleNotLoaded);
            },
        };
        let ghost s0 = self.modules@;
        let mut lm = self.modules.remove(idx);
        let out = match instance_get_memory(&lm.instance, &mut lm.store, "memory") {
            Option::Some(memory) => {
                match memory_write(&memory, &mut lm.store, GUEST_INPUT_OFFSET, data) {
                    Ok(()) => {
                        match get_typed_func_pair(&lm.instance, &mut lm.store, function_name) {
                            Ok(f) => {
                                let ptr: i32 = GUEST_INPUT_OFFSET as i32;
                                let len: i32 = #[verifier::truncate] (data.len() as i32);
                                match typed_call_pair(&f, &mut lm.store, ptr, len) {
                                    Ok(v) => Ok(v),
                                    Err(e) => Err(ExecError::Wasm { detail: error_text(&e) }),
                                }
                            },
                            Err(e) => Err(ExecError::Wasm { detail: error_text(&e) }),
                        }
                    },
                    Err(e) => Err(ExecError::Wasm { detail: error_text(&e) }),
                }
            },
            Option::None => Err(ExecError::NoMemoryExport),
        };
        self.modules.insert(idx, lm);
        proof {
            lemma_put_back(s0, self.modules@, idx as int);
        }
        out
    }
}

/// Removing an element and inserting one back at the same index keeps
/// every position's metadata and export table, provided the put-back
/// element keeps them.
proof fn lemma_put_back(s0: Seq<LoadedModule>, s2: Seq<LoadedModule>, idx: int)
    requires
        0 <= idx < s0.len(),
        s2 == s0.remove(idx).insert(idx, s2[idx]),
        idx < s2.len(),
        s2[idx].metadata == s0[idx].metadata,
        s2[idx].exports@ == s0[idx].exports@,
    ensures
        modules_preserved(s0, s2),
{
    assert(s2.len() == s0.len());
    assert forall|i: int|
        0 <= i < s0.len() implies s2[i].metadata == s0[i].metadata && s2[i].exports@
        == s0[i].exports@ by {
        if i < idx {
            assert(s2[i] == s0[i]);
        } else if i > idx {
            assert(s0.remove(idx)[i - 1] == s0[i]);
            assert(s2[i] == s0.remove(idx)[i - 1]);
        }
    }
}

/// A signature lookup succeeds exactly for the names the export list
/// holds: whenever `names` lists the exports name for name, membership in
/// `names` and export existence coincide.
pub proof fn lemma_signature_iff_listed(exports: Seq<FuncDecl>, names: Seq<Seq<u8>>, f: Seq<u8>)
    requires
        names.len() == exports.len(),
        forall|i: int| 0 <= i < names.len() ==> names[i] == exports[i].name@,
    ensures
        spec_has_export(exports, f) <==> names.contains(f),
{
    if spec_has_export(exports, f) {
        let j = choose|j: int| 0 <= j < exports.len() && exports[j].name@ == f;
        assert(names[j] == f);
    }
    if names.contains(f) {
        let j = choose|j: int| 0 <= j < names.len() && names[j] == f;
        assert(exports[j].name@ == f);
    }
}

} // verus!
