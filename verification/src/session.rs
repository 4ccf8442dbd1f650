//! One benchmarking session: an execution store and a linker created
//! together against one engine, the namespace built by linking modules in
//! caller order, and the typed invocation handles resolved from it. The
//! session owns every engine object it hands indices out for, so a handle
//! can only ever be called on the store it was resolved against; a fresh
//! session is built for every iteration, which keeps handle lifetimes inside
//! store lifetimes by construction.
//!
//! Every call into the engine goes through a trusted declaration in this
//! file; the import checking, shadowing order, and signature comparison are
//! the verified logic of [`crate::namespace`].

use vstd::prelude::*;

use crate::namespace::{
    CapDecl, ExportDecl, ExportKind, ImportDecl, LinkError, ModuleDecl, Namespace, ResolveError,
    DeclV, ExportV, ImportV, KindV, ResolveV, UnsatV, EntryV,
    caps_v, link_spec, mods_v, plan_link, resolve_spec, lookup_index,
};
use crate::sig::{FuncSig, SigV, ValKind};

verus! {

#[verifier::external_type_specification]
#[verifier::external_body]
pub struct ExEngine(wasmtime::Engine);

#[verifier::external_type_specification]
#[verifier::external_body]
pub struct ExModule(wasmtime::Module);

#[verifier::external_type_specification]
#[verifier::external_body]
#[verifier::reject_recursive_types(T)]
pub struct ExStore<T: 'static>(wasmtime::Store<T>);

#[verifier::external_type_specification]
#[verifier::external_body]
#[verifier::reject_recursive_types(T)]
pub struct ExLinker<T>(wasmtime::Linker<T>);

#[verifier::external_type_specification]
#[verifier::external_body]
#[verifier::reject_recursive_types(Params)]
#[verifier::reject_recursive_types(Results)]
pub struct ExTypedFunc<Params, Results>(wasmtime::TypedFunc<Params, Results>);

#[verifier::external_type_specification]
#[verifier::external_body]
pub struct ExError(wasmtime::Error);

#[verifier::external_type_specification]
#[verifier::external_body]
pub struct ExExternType(wasmtime::ExternType);

#[verifier::external_type_specification]
#[verifier::external_body]
pub struct ExValType(wasmtime::ValType);

#[verifier::external_type_specification]
#[verifier::external_body]
pub struct ExWasiP1Ctx(wasmtime_wasi::p1::WasiP1Ctx);

/// The imports a compiled module declares, in the order the engine reports
/// them: a function of the module alone.
pub uninterp spec fn module_imports(m: wasmtime::Module) -> Seq<ImportV>;

/// The exports a compiled module offers, in the order the engine reports
/// them, with their signatures: a function of the module alone.
pub uninterp spec fn module_exports(m: wasmtime::Module) -> Seq<ExportV>;

/// Relies on wasmtime::ValType: the engine's value type, mapped to the
/// harness's kind, one arm each.
#[verifier::external_body]
fn val_kind(v: wasmtime::ValType) -> ValKind {
    match v {
        wasmtime::ValType::I32 => ValKind::I32,
        wasmtime::ValType::I64 => ValKind::I64,
        wasmtime::ValType::F32 => ValKind::F32,
        wasmtime::ValType::F64 => ValKind::F64,
        _ => ValKind::Other,
    }
}

/// Relies on wasmtime::ExternType and wasmtime::FuncType::{params, results}:
/// the engine's export type mapped to the harness's export kind, one arm
/// each; a function type carries its parameter and result kinds in order.
#[verifier::external_body]
fn kind_of(t: wasmtime::ExternType) -> ExportKind {
    match t {
        wasmtime::ExternType::Func(f) => ExportKind::Func(
            FuncSig {
                params: f.params().map(val_kind).collect(),
                results: f.results().map(val_kind).collect(),
            },
        ),
        wasmtime::ExternType::Global(_) => ExportKind::Global,
        wasmtime::ExternType::Table(_) => ExportKind::Table,
        wasmtime::ExternType::Memory(_) => ExportKind::Memory,
        _ => ExportKind::Other,
    }
}

/// Relies on wasmtime::Module::imports and the import entries' module and
/// name accessors: the module's declared imports, in order.
#[verifier::external_body]
fn read_imports(m: &wasmtime::Module) -> (r: Vec<ImportDecl>)
    ensures
        r@.map_values(|d: ImportDecl| d@) == module_imports(*m),
{
    m.imports().map(
        |i| ImportDecl { module: i.module().to_string(), name: i.name().to_string() },
    ).collect()
}

/// Relies on wasmtime::Module::exports and the export entries' name and
/// type accessors: the module's exports with their kinds, in order.
#[verifier::external_body]
fn read_exports(m: &wasmtime::Module) -> (r: Vec<ExportDecl>)
    ensures
        r@.map_values(|d: ExportDecl| d@) == module_exports(*m),
{
    m.exports().map(|e| ExportDecl { name: e.name().to_string(), kind: kind_of(e.ty()) }).collect()
}

/// What a compiled module declares, as the namespace model sees it.
pub open spec fn module_decl_v(m: wasmtime::Module) -> DeclV {
    DeclV { imports: module_imports(m), exports: module_exports(m) }
}

/// The identified declarations of a sequence of identified modules.
pub open spec fn decls_v(mods: Seq<(String, wasmtime::Module)>) -> Seq<(Seq<char>, DeclV)> {
    mods.map_values(|m: (String, wasmtime::Module)| (m.0@, module_decl_v(m.1)))
}

/// The linker and store of one session, created together against one
/// engine, so that every call that pairs them is on matched objects.
#[verifier::reject_recursive_types(T)]
struct Backend<T: 'static> {
    linker: wasmtime::Linker<T>,
    store: wasmtime::Store<T>,
}

/// Relies on wasmtime::Linker::new, wasmtime::Linker::allow_shadowing and
/// wasmtime::Store::new: an empty linker and a fresh store holding `data`,
/// both against `engine`. Shadowing is enabled so that a later module's
/// exports overwrite earlier ones of the same name, the namespace's
/// last-write-wins rule. On an engine configured for asynchronous execution,
/// later instantiations and calls fail with an error.
#[verifier::external_body]
fn new_backend<T>(engine: &wasmtime::Engine, data: T) -> Backend<T> {
    let mut linker = wasmtime::Linker::new(engine);
    linker.allow_shadowing(true);
    Backend { linker, store: wasmtime::Store::new(engine, data) }
}

/// Relies additionally on wasmtime_wasi::WasiCtxBuilder::{new, inherit_stdio,
/// build_p1} and wasmtime_wasi::p1::add_to_linker_sync: a backend whose
/// store owns a standard-I/O pass-through context and whose linker offers
/// the host's I/O capabilities to guest imports.
#[verifier::external_body]
fn new_backend_with_stdio(engine: &wasmtime::Engine) -> Result<
    Backend<HostState>,
    wasmtime::Error,
> {
    let mut linker = wasmtime::Linker::new(engine);
    linker.allow_shadowing(true);
    wasmtime_wasi::p1::add_to_linker_sync(&mut linker, |s: &mut HostState| &mut s.wasi)?;
    let wasi = wasmtime_wasi::WasiCtxBuilder::new().inherit_stdio().build_p1();
    Ok(Backend { linker, store: wasmtime::Store::new(engine, HostState { wasi }) })
}

/// Relies on wasmtime::Linker::module: instantiates `module` against this
/// backend's store, running its start function with its guest-observable
/// effects, and defines its exports in the linker under `id`, overwriting
/// colliding definitions. (For a command-style module the engine instead
/// defers instantiation and start to each call of its entry point.) Any
/// failure, including a trap in a start function or a module from another
/// engine, comes back as the engine's error.
#[verifier::external_body]
fn instantiate<T>(backend: &mut Backend<T>, id: &String, module: &wasmtime::Module) -> Result<
    (),
    wasmtime::Error,
> {
    backend.linker.module(&mut backend.store, id.as_str(), module).map(|_| ())
}

/// Relies on the engine error's display form: a human-readable description
/// of the failure.
#[verifier::external_body]
fn error_text(e: &wasmtime::Error) -> String {
    format!("{}", e)
}

/// Host state owned by a standard-I/O session's store.
pub struct HostState {
    wasi: wasmtime_wasi::p1::WasiP1Ctx,
}

/// Calling a resolved handle failed.
#[derive(Debug)]
pub enum CallError {
    /// The handle does not belong to this session.
    InvalidHandle,
    /// The guest faulted (or the engine refused the call); the fault is
    /// reported verbatim, never retried or masked.
    Trap { message: String },
}

/// A resolved export of shape `() -> ()`, as an index into its session.
#[derive(Debug)]
pub struct HandleNilNil {
    pub idx: usize,
}

/// A resolved export of shape `(i32, i32) -> i32`, as an index into its
/// session.
#[derive(Debug)]
pub struct HandleBinI32 {
    pub idx: usize,
}

/// A resolved export of shape `() -> i32`.
#[derive(Debug)]
pub struct HandleNilI32 {
    pub idx: usize,
}

/// A resolved export of shape `() -> u64`.
#[derive(Debug)]
pub struct HandleNilU64 {
    pub idx: usize,
}

/// A resolved export of shape `(u64) -> i32`.
#[derive(Debug)]
pub struct HandleU64I32 {
    pub idx: usize,
}

/// The declared shape `() -> ()`.
pub open spec fn sig_nil_nil() -> SigV {
    SigV { params: Seq::empty(), results: Seq::empty() }
}

/// The declared shape `(i32, i32) -> i32`.
pub open spec fn sig_bin_i32() -> SigV {
    SigV { params: seq![ValKind::I32, ValKind::I32], results: seq![ValKind::I32] }
}

/// The declared shape `() -> i32`.
pub open spec fn sig_nil_i32() -> SigV {
    SigV { params: Seq::empty(), results: seq![ValKind::I32] }
}

/// The declared shape `() -> u64`.
pub open spec fn sig_nil_u64() -> SigV {
    SigV { params: Seq::empty(), results: seq![ValKind::I64] }
}

/// The declared shape `(u64) -> i32`.
pub open spec fn sig_u64_i32() -> SigV {
    SigV { params: seq![ValKind::I64], results: seq![ValKind::I32] }
}

/// One benchmarking session. Handles are indices into the session that
/// resolved them; they become useless when the session is dropped, and a
/// handle of one session indexes at worst another export of the session it
/// is used with, never another store's.
#[verifier::reject_recursive_types(T)]
pub struct Session<T: 'static> {
    backend: Backend<T>,
    nil_nil: Vec<wasmtime::TypedFunc<(), ()>>,
    bin_i32: Vec<wasmtime::TypedFunc<(i32, i32), i32>>,
    nil_i32: Vec<wasmtime::TypedFunc<(), i32>>,
    nil_u64: Vec<wasmtime::TypedFunc<(), u64>>,
    u64_i32: Vec<wasmtime::TypedFunc<(u64,), i32>>,
}

impl<T> Session<T> {
    /// How many `() -> ()` handles this session has resolved.
    pub closed spec fn nil_nil_count(&self) -> nat {
        self.nil_nil@.len()
    }

    /// How many `(i32, i32) -> i32` handles this session has resolved.
    pub closed spec fn bin_i32_count(&self) -> nat {
        self.bin_i32@.len()
    }

    /// How many `() -> i32` handles this session has resolved.
    pub closed spec fn nil_i32_count(&self) -> nat {
        self.nil_i32@.len()
    }

    /// How many `() -> u64` handles this session has resolved.
    pub closed spec fn nil_u64_count(&self) -> nat {
        self.nil_u64@.len()
    }

    /// How many `(u64) -> i32` handles this session has resolved.
    pub closed spec fn u64_i32_count(&self) -> nat {
        self.u64_i32@.len()
    }

    /// A fresh session against `engine`, holding `data` as host state, with
    /// no handles resolved yet.
    pub fn new(engine: &wasmtime::Engine, data: T) -> (r: Session<T>)
        ensures
            r.nil_nil_count() == 0,
            r.bin_i32_count() == 0,
            r.nil_i32_count() == 0,
            r.nil_u64_count() == 0,
            r.u64_i32_count() == 0,
    {
        Session {
            backend: new_backend(engine, data),
            nil_nil: Vec::new(),
            bin_i32: Vec::new(),
            nil_i32: Vec::new(),
            nil_u64: Vec::new(),
            u64_i32: Vec::new(),
        }
    }
}

impl<T> Session<T> {
    /// Links `modules`, in the given order, into a fresh namespace:
    /// each module's imports must be satisfied by the declared host
    /// capabilities `caps` or by exports already placed by an earlier module
    /// of this call; then the module is instantiated against this session's
    /// store (running its start routine) and its exports are placed under
    /// its identifier, shadowing earlier entries of the same name. The first
    /// unsatisfied import aborts the whole operation before any module is
    /// instantiated, so no partial namespace and no start-routine side
    /// effect occurs; an engine failure during instantiation is reported as
    /// `LinkError::Engine` and can arise only after every import check
    /// passed.
    pub fn link(&mut self, caps: &Vec<CapDecl>, modules: &Vec<(String, wasmtime::Module)>) -> (r:
        Result<Namespace, LinkError>)
        ensures
            final(self).nil_nil_count() == old(self).nil_nil_count(),
            final(self).bin_i32_count() == old(self).bin_i32_count(),
            final(self).nil_i32_count() == old(self).nil_i32_count(),
            final(self).nil_u64_count() == old(self).nil_u64_count(),
            final(self).u64_i32_count() == old(self).u64_i32_count(),
            match r {
                Ok(ns) => link_spec(caps_v(caps@), decls_v(modules@)) == Ok::<Seq<EntryV>, UnsatV>(
                    ns@,
                ),
                Err(e) => match e {
                    LinkError::UnsatisfiedImport { module_id, import_module, import_name } => {
                        link_spec(caps_v(caps@), decls_v(modules@)) == Err::<Seq<EntryV>, UnsatV>(
                            (UnsatV {
                                module_id: module_id@,
                                import_module: import_module@,
                                import_name: import_name@,
                            }),
                        )
                    },
                    LinkError::Engine { .. } => modules@.len() > 0 && link_spec(
                        caps_v(caps@),
                        decls_v(modules@),
                    ) is Ok,
                },
            },
    {
        let ghost dv = decls_v(modules@);
        let mut decls: Vec<(String, ModuleDecl)> = Vec::new();
        let n = modules.len();
        let mut i: usize = 0;
        while i < n
            invariant
                n == modules.len(),
                dv == decls_v(modules@),
                0 <= i <= n,
                decls@.len() == i,
                mods_v(decls@) =~= dv.take(i as int),
            decreases n - i,
        {
            let imports = read_imports(&modules[i].1);
            let exports = read_exports(&modules[i].1);
            let id = modules[i].0.clone();
            decls.push((id, ModuleDecl { imports, exports }));
            proof {
                assert(mods_v(decls@).last() == dv[i as int]);
                assert(mods_v(decls@) =~= dv.take(i + 1));
            }
            i += 1;
        }
        proof {
            assert(dv.take(n as int) =~= dv);
        }
        let planned = plan_link(caps, &decls);
        match planned {
            Err(e) => Err(e),
            Ok(ns) => {
                proof {
                    assert(mods_v(decls@) == dv);
                    assert(link_spec(caps_v(caps@), decls_v(modules@)) == Ok::<
                        Seq<EntryV>,
                        UnsatV,
                    >(ns@));
                }
                let mut k: usize = 0;
                while k < n
                    invariant
                        n == modules.len(),
                        link_spec(caps_v(caps@), decls_v(modules@)) == Ok::<Seq<EntryV>, UnsatV>(
                            ns@,
                        ),
                        self.nil_nil_count() == old(self).nil_nil_count(),
                        self.bin_i32_count() == old(self).bin_i32_count(),
                        self.nil_i32_count() == old(self).nil_i32_count(),
                        self.nil_u64_count() == old(self).nil_u64_count(),
                        self.u64_i32_count() == old(self).u64_i32_count(),
                    decreases n - k,
                {
                    match instantiate(&mut self.backend, &modules[k].0, &modules[k].1) {
                        Ok(()) => {},
                        Err(e) => {
                            return Err(LinkError::Engine { message: error_text(&e) });
                        },
                    }
                    k += 1;
                }
                Ok(ns)
            },
        }
    }
}

/// Checks resolution of `(id, name)` at the declared signature `want`
/// against the namespace alone: absent yields `NotFound`, a non-function
/// export yields `NotCallable`, a function of another shape yields
/// `SignatureMismatch` carrying both the declared and the actual signature.
fn check_callable(ns: &Namespace, id: &String, name: &String, want: &FuncSig) -> (r: Result<
    (),
    ResolveError,
>)
    ensures
        match resolve_spec(ns@, id@, name@, want@) {
            ResolveV::Found(_) => r is Ok,
            ResolveV::NotFound => r == Err::<(), ResolveError>(ResolveError::NotFound),
            ResolveV::NotCallable { .. } => r == Err::<(), ResolveError>(ResolveError::NotCallable),
            ResolveV::SignatureMismatch { expected, actual } => r matches Err(e) && e matches
                ResolveError::SignatureMismatch { expected: we, actual: ae } && we@ == expected
                && ae@ == actual,
        },
{
    match lookup_index(ns, id, name) {
        None => Err(ResolveError::NotFound),
        Some(j) => {
            proof {
                assert(ns@[j as int] == ns.entries@[j as int]@);
            }
            match &ns.entries[j].kind {
                ExportKind::Func(actual) => {
                    proof {
                        assert(ns@[j as int].kind == KindV::Func(actual@));
                    }
                    if actual.matches(want) {
                        proof {
                            assert(actual@ =~= want@);
                        }
                        Ok(())
                    } else {
                        Err(
                            ResolveError::SignatureMismatch {
                                expected: want.duplicate(),
                                actual: actual.duplicate(),
                            },
                        )
                    }
                },
                _ => Err(ResolveError::NotCallable),
            }
        },
    }
}

/// Relies on wasmtime::Linker::get, wasmtime::Extern::into_func and
/// wasmtime::Func::typed at parameters (i32, i32) and result i32: the
/// export under `(id, name)` in this session's linker, type-checked by the
/// engine itself. The linker and store were created together, as the lookup
/// requires.
#[verifier::external_body]
fn get_typed_bin_i32<T>(backend: &mut Backend<T>, id: &String, name: &String) -> Result<
    wasmtime::TypedFunc<(i32, i32), i32>,
    wasmtime::Error,
> {
    let ext = backend.linker.get(&mut backend.store, id.as_str(), name.as_str())?;
    match ext.into_func() {
        Some(f) => f.typed::<(i32, i32), i32>(&backend.store),
        None => Err(wasmtime::Error::msg("export is not a function")),
    }
}

/// Relies on the same engine operations as `get_typed_bin_i32`, at no
/// parameters and no results.
#[verifier::external_body]
fn get_typed_nil_nil<T>(backend: &mut Backend<T>, id: &String, name: &String) -> Result<
    wasmtime::TypedFunc<(), ()>,
    wasmtime::Error,
> {
    let ext = backend.linker.get(&mut backend.store, id.as_str(), name.as_str())?;
    match ext.into_func() {
        Some(f) => f.typed::<(), ()>(&backend.store),
        None => Err(wasmtime::Error::msg("export is not a function")),
    }
}

/// Relies on the same engine operations as `get_typed_bin_i32`, at no
/// parameters and result i32.
#[verifier::external_body]
fn get_typed_nil_i32<T>(backend: &mut Backend<T>, id: &String, name: &String) -> Result<
    wasmtime::TypedFunc<(), i32>,
    wasmtime::Error,
> {
    let ext = backend.linker.get(&mut backend.store, id.as_str(), name.as_str())?;
    match ext.into_func() {
        Some(f) => f.typed::<(), i32>(&backend.store),
        None => Err(wasmtime::Error::msg("export is not a function")),
    }
}

/// Relies on the same engine operations as `get_typed_bin_i32`, at no
/// parameters and result u64 (the engine's 64-bit integer kind).
#[verifier::external_body]
fn get_typed_nil_u64<T>(backend: &mut Backend<T>, id: &String, name: &String) -> Result<
    wasmtime::TypedFunc<(), u64>,
    wasmtime::Error,
> {
    let ext = backend.linker.get(&mut backend.store, id.as_str(), name.as_str())?;
    match ext.into_func() {
        Some(f) => f.typed::<(), u64>(&backend.store),
        None => Err(wasmtime::Error::msg("export is not a function")),
    }
}

/// Relies on the same engine operations as `get_typed_bin_i32`, at one u64
/// parameter (the engine's 64-bit integer kind) and result i32.
#[verifier::external_body]
fn get_typed_u64_i32<T>(backend: &mut Backend<T>, id: &String, name: &String) -> Result<
    wasmtime::TypedFunc<(u64,), i32>,
    wasmtime::Error,
> {
    let ext = backend.linker.get(&mut backend.store, id.as_str(), name.as_str())?;
    match ext.into_func() {
        Some(f) => f.typed::<(u64,), i32>(&backend.store),
        None => Err(wasmtime::Error::msg("export is not a function")),
    }
}

/// Relies on wasmtime::TypedFunc::call: runs the resolved export on this
/// session's store with the given arguments; a guest trap or an engine
/// refusal is returned verbatim as the error. Only functions resolved from
/// this same backend's linker are handed in, so the store contains them.
#[verifier::external_body]
fn call_typed_bin_i32<T>(
    backend: &mut Backend<T>,
    f: &wasmtime::TypedFunc<(i32, i32), i32>,
    a: i32,
    b: i32,
) -> Result<i32, wasmtime::Error> {
    f.call(&mut backend.store, (a, b))
}

/// Relies on wasmtime::TypedFunc::call, as `call_typed_bin_i32`.
#[verifier::external_body]
fn call_typed_nil_nil<T>(backend: &mut Backend<T>, f: &wasmtime::TypedFunc<(), ()>) -> Result<
    (),
    wasmtime::Error,
> {
    f.call(&mut backend.store, ())
}

/// Relies on wasmtime::TypedFunc::call, as `call_typed_bin_i32`.
#[verifier::external_body]
fn call_typed_nil_i32<T>(backend: &mut Backend<T>, f: &wasmtime::TypedFunc<(), i32>) -> Result<
    i32,
    wasmtime::Error,
> {
    f.call(&mut backend.store, ())
}

/// Relies on wasmtime::TypedFunc::call, as `call_typed_bin_i32`.
#[verifier::external_body]
fn call_typed_nil_u64<T>(backend: &mut Backend<T>, f: &wasmtime::TypedFunc<(), u64>) -> Result<
    u64,
    wasmtime::Error,
> {
    f.call(&mut backend.store, ())
}

/// Relies on wasmtime::TypedFunc::call, as `call_typed_bin_i32`.
#[verifier::external_body]
fn call_typed_u64_i32<T>(
    backend: &mut Backend<T>,
    f: &wasmtime::TypedFunc<(u64,), i32>,
    a: u64,
) -> Result<i32, wasmtime::Error> {
    f.call(&mut backend.store, (a,))
}

impl<T> Session<T> {
    /// Resolves `(id, name)` as a callable of shape `() -> ()` (a command
    /// entry point); outcomes as for `resolve_bin_i32`.
    pub fn resolve_nil_nil(&mut self, ns: &Namespace, id: &String, name: &String) -> (r: Result<
        HandleNilNil,
        ResolveError,
    >)
        ensures
            final(self).bin_i32_count() == old(self).bin_i32_count(),
            final(self).nil_i32_count() == old(self).nil_i32_count(),
            final(self).nil_u64_count() == old(self).nil_u64_count(),
            final(self).u64_i32_count() == old(self).u64_i32_count(),
            match r {
                Ok(h) => resolve_spec(ns@, id@, name@, sig_nil_nil()) is Found && h.idx == old(
                    self,
                ).nil_nil_count() && final(self).nil_nil_count() == old(self).nil_nil_count() + 1,
                Err(e) => final(self).nil_nil_count() == old(self).nil_nil_count() && (match e {
                    ResolveError::NotFound => resolve_spec(ns@, id@, name@, sig_nil_nil())
                        is NotFound,
                    ResolveError::NotCallable => resolve_spec(ns@, id@, name@, sig_nil_nil())
                        is NotCallable,
                    ResolveError::SignatureMismatch { expected, actual } => resolve_spec(
                        ns@,
                        id@,
                        name@,
                        sig_nil_nil(),
                    ) matches ResolveV::SignatureMismatch { expected: ev, actual: av } && expected@
                        == ev && actual@ == av,
                    ResolveError::Engine { .. } => resolve_spec(ns@, id@, name@, sig_nil_nil())
                        is Found,
                }),
            },
    {
        let want = FuncSig { params: Vec::new(), results: Vec::new() };
        proof {
            assert(want@.params =~= sig_nil_nil().params);
            assert(want@.results =~= sig_nil_nil().results);
            assert(want@ =~= sig_nil_nil());
        }
        match check_callable(ns, id, name, &want) {
            Err(e) => Err(e),
            Ok(()) => match get_typed_nil_nil(&mut self.backend, id, name) {
                Ok(tf) => {
                    let idx = self.nil_nil.len();
                    self.nil_nil.push(tf);
                    Ok(HandleNilNil { idx })
                },
                Err(e) => Err(ResolveError::Engine { message: error_text(&e) }),
            },
        }
    }

    /// Calls a resolved `() -> ()` export; outcomes as for `call_bin_i32`.
    pub fn call_nil_nil(&mut self, h: &HandleNilNil) -> (r: Result<(), CallError>)
        ensures
            final(self).nil_nil_count() == old(self).nil_nil_count(),
            final(self).bin_i32_count() == old(self).bin_i32_count(),
            final(self).nil_i32_count() == old(self).nil_i32_count(),
            final(self).nil_u64_count() == old(self).nil_u64_count(),
            final(self).u64_i32_count() == old(self).u64_i32_count(),
            h.idx >= old(self).nil_nil_count() <==> r == Err::<(), CallError>(
                CallError::InvalidHandle,
            ),
    {
        if h.idx >= self.nil_nil.len() {
            return Err(CallError::InvalidHandle);
        }
        match call_typed_nil_nil(&mut self.backend, &self.nil_nil[h.idx]) {
            Ok(v) => Ok(v),
            Err(e) => Err(CallError::Trap { message: error_text(&e) }),
        }
    }

    /// Resolves `(id, name)` as a callable of shape `(i32, i32) -> i32`.
    /// The namespace decides the outcome: `NotFound`, `NotCallable` and
    /// `SignatureMismatch` are exactly as the namespace model says, and a
    /// handle is produced only where the model says the shapes agree; the
    /// engine's own type check runs behind the same decision and its
    /// disagreement (only possible on a namespace not built from this
    /// session) is an `Engine` error.
    pub fn resolve_bin_i32(&mut self, ns: &Namespace, id: &String, name: &String) -> (r: Result<
        HandleBinI32,
        ResolveError,
    >)
        ensures
            final(self).nil_nil_count() == old(self).nil_nil_count(),
            final(self).nil_i32_count() == old(self).nil_i32_count(),
            final(self).nil_u64_count() == old(self).nil_u64_count(),
            final(self).u64_i32_count() == old(self).u64_i32_count(),
            match r {
                Ok(h) => resolve_spec(ns@, id@, name@, sig_bin_i32()) is Found && h.idx == old(
                    self,
                ).bin_i32_count() && final(self).bin_i32_count() == old(self).bin_i32_count() + 1,
                Err(e) => final(self).bin_i32_count() == old(self).bin_i32_count() && (match e {
                    ResolveError::NotFound => resolve_spec(ns@, id@, name@, sig_bin_i32())
                        is NotFound,
                    ResolveError::NotCallable => resolve_spec(ns@, id@, name@, sig_bin_i32())
                        is NotCallable,
                    ResolveError::SignatureMismatch { expected, actual } => resolve_spec(
                        ns@,
                        id@,
                        name@,
                        sig_bin_i32(),
                    ) matches ResolveV::SignatureMismatch { expected: ev, actual: av } && expected@
                        == ev && actual@ == av,
                    ResolveError::Engine { .. } => resolve_spec(ns@, id@, name@, sig_bin_i32())
                        is Found,
                }),
            },
    {
        let want = FuncSig {
            params: vec![ValKind::I32, ValKind::I32],
            results: vec![ValKind::I32],
        };
        proof {
            assert(want@.params =~= sig_bin_i32().params);
            assert(want@.results =~= sig_bin_i32().results);
            assert(want@ =~= sig_bin_i32());
        }
        match check_callable(ns, id, name, &want) {
            Err(e) => Err(e),
            Ok(()) => match get_typed_bin_i32(&mut self.backend, id, name) {
                Ok(tf) => {
                    let idx = self.bin_i32.len();
                    self.bin_i32.push(tf);
                    Ok(HandleBinI32 { idx })
                },
                Err(e) => Err(ResolveError::Engine { message: error_text(&e) }),
            },
        }
    }

    /// Resolves `(id, name)` as a callable of shape `() -> i32`; outcomes
    /// as for `resolve_bin_i32`.
    pub fn resolve_nil_i32(&mut self, ns: &Namespace, id: &String, name: &String) -> (r: Result<
        HandleNilI32,
        ResolveError,
    >)
        ensures
            final(self).nil_nil_count() == old(self).nil_nil_count(),
            final(self).bin_i32_count() == old(self).bin_i32_count(),
            final(self).nil_u64_count() == old(self).nil_u64_count(),
            final(self).u64_i32_count() == old(self).u64_i32_count(),
            match r {
                Ok(h) => resolve_spec(ns@, id@, name@, sig_nil_i32()) is Found && h.idx == old(
                    self,
                ).nil_i32_count() && final(self).nil_i32_count() == old(self).nil_i32_count() + 1,
                Err(e) => final(self).nil_i32_count() == old(self).nil_i32_count() && (match e {
                    ResolveError::NotFound => resolve_spec(ns@, id@, name@, sig_nil_i32())
                        is NotFound,
                    ResolveError::NotCallable => resolve_spec(ns@, id@, name@, sig_nil_i32())
                        is NotCallable,
                    ResolveError::SignatureMismatch { expected, actual } => resolve_spec(
                        ns@,
                        id@,
                        name@,
                        sig_nil_i32(),
                    ) matches ResolveV::SignatureMismatch { expected: ev, actual: av } && expected@
                        == ev && actual@ == av,
                    ResolveError::Engine { .. } => resolve_spec(ns@, id@, name@, sig_nil_i32())
                        is Found,
                }),
            },
    {
        let want = FuncSig { params: Vec::new(), results: vec![ValKind::I32] };
        proof {
            assert(want@.params =~= sig_nil_i32().params);
            assert(want@.results =~= sig_nil_i32().results);
            assert(want@ =~= sig_nil_i32());
        }
        match check_callable(ns, id, name, &want) {
            Err(e) => Err(e),
            Ok(()) => match get_typed_nil_i32(&mut self.backend, id, name) {
                Ok(tf) => {
                    let idx = self.nil_i32.len();
                    self.nil_i32.push(tf);
                    Ok(HandleNilI32 { idx })
                },
                Err(e) => Err(ResolveError::Engine { message: error_text(&e) }),
            },
        }
    }

    /// Resolves `(id, name)` as a callable of shape `() -> u64` (the
    /// engine's 64-bit integer kind); outcomes as for `resolve_bin_i32`.
    pub fn resolve_nil_u64(&mut self, ns: &Namespace, id: &String, name: &String) -> (r: Result<
        HandleNilU64,
        ResolveError,
    >)
        ensures
            final(self).nil_nil_count() == old(self).nil_nil_count(),
            final(self).bin_i32_count() == old(self).bin_i32_count(),
            final(self).nil_i32_count() == old(self).nil_i32_count(),
            final(self).u64_i32_count() == old(self).u64_i32_count(),
            match r {
                Ok(h) => resolve_spec(ns@, id@, name@, sig_nil_u64()) is Found && h.idx == old(
                    self,
                ).nil_u64_count() && final(self).nil_u64_count() == old(self).nil_u64_count() + 1,
                Err(e) => final(self).nil_u64_count() == old(self).nil_u64_count() && (match e {
                    ResolveError::NotFound => resolve_spec(ns@, id@, name@, sig_nil_u64())
                        is NotFound,
                    ResolveError::NotCallable => resolve_spec(ns@, id@, name@, sig_nil_u64())
                        is NotCallable,
                    ResolveError::SignatureMismatch { expected, actual } => resolve_spec(
                        ns@,
                        id@,
                        name@,
                        sig_nil_u64(),
                    ) matches ResolveV::SignatureMismatch { expected: ev, actual: av } && expected@
                        == ev && actual@ == av,
                    ResolveError::Engine { .. } => resolve_spec(ns@, id@, name@, sig_nil_u64())
                        is Found,
                }),
            },
    {
        let want = FuncSig { params: Vec::new(), results: vec![ValKind::I64] };
        proof {
            assert(want@.params =~= sig_nil_u64().params);
            assert(want@.results =~= sig_nil_u64().results);
            assert(want@ =~= sig_nil_u64());
        }
        match check_callable(ns, id, name, &want) {
            Err(e) => Err(e),
            Ok(()) => match get_typed_nil_u64(&mut self.backend, id, name) {
                Ok(tf) => {
                    let idx = self.nil_u64.len();
                    self.nil_u64.push(tf);
                    Ok(HandleNilU64 { idx })
                },
                Err(e) => Err(ResolveError::Engine { message: error_text(&e) }),
            },
        }
    }

    /// Resolves `(id, name)` as a callable of shape `(u64) -> i32` (the
    /// parameter being the engine's 64-bit integer kind); outcomes as for
    /// `resolve_bin_i32`.
    pub fn resolve_u64_i32(&mut self, ns: &Namespace, id: &String, name: &String) -> (r: Result<
        HandleU64I32,
        ResolveError,
    >)
        ensures
            final(self).nil_nil_count() == old(self).nil_nil_count(),
            final(self).bin_i32_count() == old(self).bin_i32_count(),
            final(self).nil_i32_count() == old(self).nil_i32_count(),
            final(self).nil_u64_count() == old(self).nil_u64_count(),
            match r {
                Ok(h) => resolve_spec(ns@, id@, name@, sig_u64_i32()) is Found && h.idx == old(
                    self,
                ).u64_i32_count() && final(self).u64_i32_count() == old(self).u64_i32_count() + 1,
                Err(e) => final(self).u64_i32_count() == old(self).u64_i32_count() && (match e {
                    ResolveError::NotFound => resolve_spec(ns@, id@, name@, sig_u64_i32())
                        is NotFound,
                    ResolveError::NotCallable => resolve_spec(ns@, id@, name@, sig_u64_i32())
                        is NotCallable,
                    ResolveError::SignatureMismatch { expected, actual } => resolve_spec(
                        ns@,
                        id@,
                        name@,
                        sig_u64_i32(),
                    ) matches ResolveV::SignatureMismatch { expected: ev, actual: av } && expected@
                        == ev && actual@ == av,
                    ResolveError::Engine { .. } => resolve_spec(ns@, id@, name@, sig_u64_i32())
                        is Found,
                }),
            },
    {
        let want = FuncSig { params: vec![ValKind::I64], results: vec![ValKind::I32] };
        proof {
            assert(want@.params =~= sig_u64_i32().params);
            assert(want@.results =~= sig_u64_i32().results);
            assert(want@ =~= sig_u64_i32());
        }
        match check_callable(ns, id, name, &want) {
            Err(e) => Err(e),
            Ok(()) => match get_typed_u64_i32(&mut self.backend, id, name) {
                Ok(tf) => {
                    let idx = self.u64_i32.len();
                    self.u64_i32.push(tf);
                    Ok(HandleU64I32 { idx })
                },
                Err(e) => Err(ResolveError::Engine { message: error_text(&e) }),
            },
        }
    }

    /// Calls a resolved `(i32, i32) -> i32` export. A handle this session
    /// did not produce is refused as `InvalidHandle`; a guest fault is
    /// propagated verbatim as `Trap`, never retried or masked; what value a
    /// successful call returns is the guest's alone.
    pub fn call_bin_i32(&mut self, h: &HandleBinI32, a: i32, b: i32) -> (r: Result<i32, CallError>)
        ensures
            final(self).nil_nil_count() == old(self).nil_nil_count(),
            final(self).bin_i32_count() == old(self).bin_i32_count(),
            final(self).nil_i32_count() == old(self).nil_i32_count(),
            final(self).nil_u64_count() == old(self).nil_u64_count(),
            final(self).u64_i32_count() == old(self).u64_i32_count(),
            h.idx >= old(self).bin_i32_count() <==> r == Err::<i32, CallError>(
                CallError::InvalidHandle,
            ),
    {
        if h.idx >= self.bin_i32.len() {
            return Err(CallError::InvalidHandle);
        }
        match call_typed_bin_i32(&mut self.backend, &self.bin_i32[h.idx], a, b) {
            Ok(v) => Ok(v),
            Err(e) => Err(CallError::Trap { message: error_text(&e) }),
        }
    }

    /// Calls a resolved `() -> i32` export; outcomes as for `call_bin_i32`.
    pub fn call_nil_i32(&mut self, h: &HandleNilI32) -> (r: Result<i32, CallError>)
        ensures
            final(self).nil_nil_count() == old(self).nil_nil_count(),
            final(self).bin_i32_count() == old(self).bin_i32_count(),
            final(self).nil_i32_count() == old(self).nil_i32_count(),
            final(self).nil_u64_count() == old(self).nil_u64_count(),
            final(self).u64_i32_count() == old(self).u64_i32_count(),
            h.idx >= old(self).nil_i32_count() <==> r == Err::<i32, CallError>(
                CallError::InvalidHandle,
            ),
    {
        if h.idx >= self.nil_i32.len() {
            return Err(CallError::InvalidHandle);
        }
        match call_typed_nil_i32(&mut self.backend, &self.nil_i32[h.idx]) {
            Ok(v) => Ok(v),
            Err(e) => Err(CallError::Trap { message: error_text(&e) }),
        }
    }

    /// Calls a resolved `() -> u64` export; outcomes as for `call_bin_i32`.
    pub fn call_nil_u64(&mut self, h: &HandleNilU64) -> (r: Result<u64, CallError>)
        ensures
            final(self).nil_nil_count() == old(self).nil_nil_count(),
            final(self).bin_i32_count() == old(self).bin_i32_count(),
            final(self).nil_i32_count() == old(self).nil_i32_count(),
            final(self).nil_u64_count() == old(self).nil_u64_count(),
            final(self).u64_i32_count() == old(self).u64_i32_count(),
            h.idx >= old(self).nil_u64_count() <==> r == Err::<u64, CallError>(
                CallError::InvalidHandle,
            ),
    {
        if h.idx >= self.nil_u64.len() {
            return Err(CallError::InvalidHandle);
        }
        match call_typed_nil_u64(&mut self.backend, &self.nil_u64[h.idx]) {
            Ok(v) => Ok(v),
            Err(e) => Err(CallError::Trap { message: error_text(&e) }),
        }
    }

    /// Calls a resolved `(u64) -> i32` export; outcomes as for
    /// `call_bin_i32`.
    pub fn call_u64_i32(&mut self, h: &HandleU64I32, a: u64) -> (r: Result<i32, CallError>)
        ensures
            final(self).nil_nil_count() == old(self).nil_nil_count(),
            final(self).bin_i32_count() == old(self).bin_i32_count(),
            final(self).nil_i32_count() == old(self).nil_i32_count(),
            final(self).nil_u64_count() == old(self).nil_u64_count(),
            final(self).u64_i32_count() == old(self).u64_i32_count(),
            h.idx >= old(self).u64_i32_count() <==> r == Err::<i32, CallError>(
                CallError::InvalidHandle,
            ),
    {
        if h.idx >= self.u64_i32.len() {
            return Err(CallError::InvalidHandle);
        }
        match call_typed_u64_i32(&mut self.backend, &self.u64_i32[h.idx], a) {
            Ok(v) => Ok(v),
            Err(e) => Err(CallError::Trap { message: error_text(&e) }),
        }
    }
}

impl Session<HostState> {
    /// A fresh session whose host state passes standard I/O through to the
    /// guest; the engine's failure to set that up is returned as a message.
    pub fn new_with_stdio(engine: &wasmtime::Engine) -> (r: Result<Session<HostState>, String>)
        ensures
            r matches Ok(s) ==> s.nil_nil_count() == 0 && s.bin_i32_count() == 0
                && s.nil_i32_count() == 0 && s.nil_u64_count() == 0 && s.u64_i32_count() == 0,
    {
        match new_backend_with_stdio(engine) {
            Ok(backend) => Ok(
                Session {
                    backend,
                    nil_nil: Vec::new(),
                    bin_i32: Vec::new(),
                    nil_i32: Vec::new(),
                    nil_u64: Vec::new(),
                    u64_i32: Vec::new(),
                },
            ),
            Err(e) => Err(error_text(&e)),
        }
    }
}

} // verus!
