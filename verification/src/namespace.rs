//! The link namespace: instantiated exports keyed by module identifier and
//! export name, filled in caller order. Linking checks every import of a
//! module against the host-capability registry and the exports already
//! placed by earlier modules of the same call; an unsatisfied import aborts
//! the whole operation and no partial namespace is produced. Later modules
//! may shadow earlier exports under the same identifier and name:
//! last-write-wins, by design, so insertion order is kept in the data.

use vstd::prelude::*;

use crate::sig::{FuncSig, SigV, ValKind};

verus! {

/// What one export of a linked module offers.
#[derive(Debug)]
pub enum ExportKind {
    /// A callable function of the given signature.
    Func(FuncSig),
    /// A global variable export; present but not callable.
    Global,
    /// A table export; present but not callable.
    Table,
    /// A linear-memory export; present but not callable.
    Memory,
    /// Any other export; present but not callable.
    Other,
}

/// The mathematical view of an `ExportKind`.
pub enum KindV {
    Func(SigV),
    Global,
    Table,
    Memory,
    Other,
}

impl View for ExportKind {
    type V = KindV;

    open spec fn view(&self) -> KindV {
        match self {
            ExportKind::Func(sig) => KindV::Func(sig@),
            ExportKind::Global => KindV::Global,
            ExportKind::Table => KindV::Table,
            ExportKind::Memory => KindV::Memory,
            ExportKind::Other => KindV::Other,
        }
    }
}

/// One declared import of a module: the module namespace and the field name
/// it asks for.
#[derive(Debug)]
pub struct ImportDecl {
    pub module: String,
    pub name: String,
}

/// The mathematical view of an `ImportDecl`.
pub struct ImportV {
    pub module: Seq<char>,
    pub name: Seq<char>,
}

impl View for ImportDecl {
    type V = ImportV;

    open spec fn view(&self) -> ImportV {
        ImportV { module: self.module@, name: self.name@ }
    }
}

/// One declared export of a module: its name and what it offers.
#[derive(Debug)]
pub struct ExportDecl {
    pub name: String,
    pub kind: ExportKind,
}

/// The mathematical view of an `ExportDecl`.
pub struct ExportV {
    pub name: Seq<char>,
    pub kind: KindV,
}

impl View for ExportDecl {
    type V = ExportV;

    open spec fn view(&self) -> ExportV {
        ExportV { name: self.name@, kind: self.kind@ }
    }
}

/// What a compiled module declares: its imports and its exports, each in
/// the order the engine reports them.
#[derive(Debug)]
pub struct ModuleDecl {
    pub imports: Vec<ImportDecl>,
    pub exports: Vec<ExportDecl>,
}

/// The mathematical view of a `ModuleDecl`.
pub struct DeclV {
    pub imports: Seq<ImportV>,
    pub exports: Seq<ExportV>,
}

impl View for ModuleDecl {
    type V = DeclV;

    open spec fn view(&self) -> DeclV {
        DeclV {
            imports: self.imports@.map_values(|d: ImportDecl| d@),
            exports: self.exports@.map_values(|d: ExportDecl| d@),
        }
    }
}

/// One host-provided capability: an importable item the host registered
/// before any module was linked.
#[derive(Debug)]
pub struct CapDecl {
    pub module: String,
    pub name: String,
}

/// The mathematical view of a `CapDecl`.
pub struct CapV {
    pub module: Seq<char>,
    pub name: Seq<char>,
}

impl View for CapDecl {
    type V = CapV;

    open spec fn view(&self) -> CapV {
        CapV { module: self.module@, name: self.name@ }
    }
}

/// One entry of the namespace: an export placed under a module identifier.
#[derive(Debug)]
pub struct NsEntry {
    pub module_id: String,
    pub name: String,
    pub kind: ExportKind,
}

/// The mathematical view of an `NsEntry`.
pub struct EntryV {
    pub module_id: Seq<char>,
    pub name: Seq<char>,
    pub kind: KindV,
}

impl View for NsEntry {
    type V = EntryV;

    open spec fn view(&self) -> EntryV {
        EntryV { module_id: self.module_id@, name: self.name@, kind: self.kind@ }
    }
}

/// The namespace itself: entries in insertion order. A later entry under the
/// same `(module_id, name)` shadows an earlier one.
#[derive(Debug)]
pub struct Namespace {
    pub entries: Vec<NsEntry>,
}

impl View for Namespace {
    type V = Seq<EntryV>;

    open spec fn view(&self) -> Seq<EntryV> {
        self.entries@.map_values(|e: NsEntry| e@)
    }
}

/// Linking failed. `UnsatisfiedImport` names the module identifier under
/// which linking was attempted and the import that nothing satisfied;
/// `Engine` carries the engine's own message when instantiation itself
/// failed after every import check had passed.
#[derive(Debug)]
pub enum LinkError {
    UnsatisfiedImport { module_id: String, import_module: String, import_name: String },
    Engine { message: String },
}

/// The mathematical view of the unsatisfied-import case.
pub struct UnsatV {
    pub module_id: Seq<char>,
    pub import_module: Seq<char>,
    pub import_name: Seq<char>,
}

/// Resolution of a typed handle failed.
#[derive(Debug)]
pub enum ResolveError {
    /// No export stands under the identifier and name.
    NotFound,
    /// The export exists but is not a callable function.
    NotCallable,
    /// The export's actual signature differs from the declared one;
    /// both are reported.
    SignatureMismatch { expected: FuncSig, actual: FuncSig },
    /// The engine refused the lookup or the type check even though the
    /// namespace said it should succeed; carries the engine's message.
    Engine { message: String },
}

/// Spec-level resolution outcome.
pub enum ResolveV {
    Found(SigV),
    NotFound,
    NotCallable { kind: KindV },
    SignatureMismatch { expected: SigV, actual: SigV },
}

/// Looks a name up in a namespace: the last entry under `(id, name)` wins.
pub open spec fn lookup(ns: Seq<EntryV>, id: Seq<char>, name: Seq<char>) -> Option<KindV>
    decreases ns.len(),
{
    if ns.len() == 0 {
        None
    } else if ns.last().module_id == id && ns.last().name == name {
        Some(ns.last().kind)
    } else {
        lookup(ns.drop_last(), id, name)
    }
}

/// Whether the host-capability registry offers `(m, n)`.
pub open spec fn cap_present(caps: Seq<CapV>, m: Seq<char>, n: Seq<char>) -> bool {
    exists|i: int| 0 <= i < caps.len() && caps[i].module == m && caps[i].name == n
}

/// Whether one import is satisfied: by a host capability, or by an export
/// already placed in the namespace.
pub open spec fn import_ok(caps: Seq<CapV>, ns: Seq<EntryV>, imp: ImportV) -> bool {
    cap_present(caps, imp.module, imp.name) || lookup(ns, imp.module, imp.name) is Some
}

/// Whether every import of a module is satisfied.
pub open spec fn imports_ok(caps: Seq<CapV>, ns: Seq<EntryV>, imps: Seq<ImportV>) -> bool {
    forall|i: int| 0 <= i < imps.len() ==> import_ok(caps, ns, imps[i])
}

/// The first unsatisfied import of a module, assuming one exists.
pub open spec fn first_unsatisfied(caps: Seq<CapV>, ns: Seq<EntryV>, imps: Seq<ImportV>) -> ImportV
    decreases imps.len(),
{
    if imps.len() == 0 {
        arbitrary()
    } else if !import_ok(caps, ns, imps.first()) {
        imps.first()
    } else {
        first_unsatisfied(caps, ns, imps.drop_first())
    }
}

/// The namespace entries one module contributes under its identifier.
pub open spec fn entries_of(id: Seq<char>, exports: Seq<ExportV>) -> Seq<EntryV> {
    exports.map_values(|e: ExportV| EntryV { module_id: id, name: e.name, kind: e.kind })
}

/// What linking the given modules, in order, on top of the namespace `acc`
/// produces: the finished namespace, or the identifier of the first module
/// with an unsatisfied import together with that import.
pub open spec fn link_from(
    caps: Seq<CapV>,
    acc: Seq<EntryV>,
    mods: Seq<(Seq<char>, DeclV)>,
) -> Result<Seq<EntryV>, UnsatV>
    decreases mods.len(),
{
    if mods.len() == 0 {
        Ok(acc)
    } else {
        let (id, d) = mods.first();
        if imports_ok(caps, acc, d.imports) {
            link_from(caps, acc + entries_of(id, d.exports), mods.drop_first())
        } else {
            let bad = first_unsatisfied(caps, acc, d.imports);
            Err(UnsatV { module_id: id, import_module: bad.module, import_name: bad.name })
        }
    }
}

/// What linking the given modules into an empty namespace produces.
pub open spec fn link_spec(caps: Seq<CapV>, mods: Seq<(Seq<char>, DeclV)>) -> Result<
    Seq<EntryV>,
    UnsatV,
> {
    link_from(caps, Seq::empty(), mods)
}

/// The view of a sequence of capability declarations.
pub open spec fn caps_v(caps: Seq<CapDecl>) -> Seq<CapV> {
    caps.map_values(|c: CapDecl| c@)
}

/// The view of a sequence of identified module declarations.
pub open spec fn mods_v(mods: Seq<(String, ModuleDecl)>) -> Seq<(Seq<char>, DeclV)> {
    mods.map_values(|m: (String, ModuleDecl)| (m.0@, m.1@))
}

/// A name is found exactly when some entry carries it.
pub proof fn lemma_lookup_some(ns: Seq<EntryV>, id: Seq<char>, name: Seq<char>)
    ensures
        lookup(ns, id, name) is Some <==> exists|i: int|
            0 <= i < ns.len() && ns[i].module_id == id && ns[i].name == name,
    decreases ns.len(),
{
    if ns.len() > 0 {
        lemma_lookup_some(ns.drop_last(), id, name);
        if ns.last().module_id == id && ns.last().name == name {
            assert(ns[ns.len() - 1].module_id == id && ns[ns.len() - 1].name == name);
        } else {
            if lookup(ns.drop_last(), id, name) is Some {
                let i = choose|i: int|
                    0 <= i < ns.drop_last().len() && ns.drop_last()[i].module_id == id
                        && ns.drop_last()[i].name == name;
                assert(ns[i].module_id == id && ns[i].name == name);
            }
            if exists|i: int| 0 <= i < ns.len() && ns[i].module_id == id && ns[i].name == name {
                let i = choose|i: int|
                    0 <= i < ns.len() && ns[i].module_id == id && ns[i].name == name;
                assert(i < ns.len() - 1);
                assert(ns.drop_last()[i].module_id == id && ns.drop_last()[i].name == name);
            }
        }
    }
}

/// Looking up finds the kind of the last entry under `(id, name)`.
pub proof fn lemma_lookup_at(ns: Seq<EntryV>, id: Seq<char>, name: Seq<char>, j: int)
    requires
        0 <= j < ns.len(),
        ns[j].module_id == id && ns[j].name == name,
        forall|k: int| j < k < ns.len() ==> !(ns[k].module_id == id && ns[k].name == name),
    ensures
        lookup(ns, id, name) == Some(ns[j].kind),
    decreases ns.len(),
{
    if j == ns.len() - 1 {
    } else {
        assert(!(ns.last().module_id == id && ns.last().name == name));
        assert(ns.drop_last()[j] == ns[j]);
        lemma_lookup_at(ns.drop_last(), id, name, j);
    }
}

/// Whether the host-capability registry offers `(m, n)`; exact.
fn cap_present_exec(caps: &Vec<CapDecl>, m: &String, n: &String) -> (r: bool)
    ensures
        r == cap_present(caps_v(caps@), m@, n@),
{
    let len = caps.len();
    let mut i: usize = 0;
    while i < len
        invariant
            len == caps.len(),
            0 <= i <= len,
            forall|j: int|
                0 <= j < i ==> !(caps_v(caps@)[j].module == m@ && caps_v(caps@)[j].name == n@),
        decreases len - i,
    {
        if caps[i].module == *m && caps[i].name == *n {
            proof {
                assert(caps_v(caps@)[i as int] == caps@[i as int]@);
            }
            assert(caps_v(caps@)[i as int].module == m@ && caps_v(caps@)[i as int].name == n@);
            return true;
        }
        i += 1;
    }
    false
}

/// Whether an export stands under `(id, name)` in the namespace; exact.
fn ns_has(ns: &Namespace, id: &String, name: &String) -> (r: bool)
    ensures
        r == (lookup(ns@, id@, name@) is Some),
{
    let len = ns.entries.len();
    let mut i: usize = 0;
    while i < len
        invariant
            len == ns.entries.len(),
            0 <= i <= len,
            forall|j: int| 0 <= j < i ==> !(ns@[j].module_id == id@ && ns@[j].name == name@),
        decreases len - i,
    {
        if ns.entries[i].module_id == *id && ns.entries[i].name == *name {
            proof {
                assert(ns@[i as int] == ns.entries@[i as int]@);
                assert(ns@[i as int].module_id == id@ && ns@[i as int].name == name@);
                assert(exists|j: int|
                    0 <= j < ns@.len() && ns@[j].module_id == id@ && ns@[j].name == name@);
                lemma_lookup_some(ns@, id@, name@);
            }
            return true;
        }
        i += 1;
    }
    proof {
        lemma_lookup_some(ns@, id@, name@);
    }
    false
}

/// The index of the entry that a lookup answers with: the last one under
/// `(id, name)`, if any.
pub fn lookup_index(ns: &Namespace, id: &String, name: &String) -> (r: Option<usize>)
    ensures
        match r {
            Some(j) => j < ns@.len() && lookup(ns@, id@, name@) == Some(ns@[j as int].kind),
            None => lookup(ns@, id@, name@) is None,
        },
{
    let len = ns.entries.len();
    let mut i: usize = len;
    while i > 0
        invariant
            len == ns.entries.len(),
            0 <= i <= len,
            forall|k: int| i <= k < len ==> !(ns@[k].module_id == id@ && ns@[k].name == name@),
        decreases i,
    {
        i -= 1;
        if ns.entries[i].module_id == *id && ns.entries[i].name == *name {
            proof {
                assert(ns@[i as int] == ns.entries@[i as int]@);
                assert(ns@[i as int].module_id == id@ && ns@[i as int].name == name@);
                lemma_lookup_at(ns@, id@, name@, i as int);
            }
            return Some(i);
        }
    }
    proof {
        lemma_lookup_some(ns@, id@, name@);
    }
    None
}

/// The first import of `imps` that neither the registry nor the namespace
/// satisfies, as its index; `None` when all are satisfied.
fn find_unsatisfied(caps: &Vec<CapDecl>, ns: &Namespace, imps: &Vec<ImportDecl>) -> (r: Option<
    usize,
>)
    ensures
        match r {
            Some(i) => {
                let iv = imps@.map_values(|d: ImportDecl| d@);
                &&& i < imps@.len()
                &&& !import_ok(caps_v(caps@), ns@, iv[i as int])
                &&& iv[i as int] == first_unsatisfied(caps_v(caps@), ns@, iv)
            },
            None => imports_ok(caps_v(caps@), ns@, imps@.map_values(|d: ImportDecl| d@)),
        },
{
    let ghost iv = imps@.map_values(|d: ImportDecl| d@);
    let len = imps.len();
    let mut i: usize = 0;
    while i < len
        invariant
            len == imps.len(),
            iv == imps@.map_values(|d: ImportDecl| d@),
            0 <= i <= len,
            forall|j: int| 0 <= j < i ==> import_ok(caps_v(caps@), ns@, iv[j]),
        decreases len - i,
    {
        let sat = cap_present_exec(caps, &imps[i].module, &imps[i].name) || ns_has(
            ns,
            &imps[i].module,
            &imps[i].name,
        );
        if !sat {
            proof {
                assert(iv[i as int] == imps@[i as int]@);
                lemma_first_unsatisfied(caps_v(caps@), ns@, iv, i as int);
            }
            return Some(i);
        }
        assert(import_ok(caps_v(caps@), ns@, iv[i as int]));
        i += 1;
    }
    None
}

/// `first_unsatisfied` answers with the import at the first failing index.
proof fn lemma_first_unsatisfied(caps: Seq<CapV>, ns: Seq<EntryV>, imps: Seq<ImportV>, i: int)
    requires
        0 <= i < imps.len(),
        !import_ok(caps, ns, imps[i]),
        forall|j: int| 0 <= j < i ==> import_ok(caps, ns, imps[j]),
    ensures
        first_unsatisfied(caps, ns, imps) == imps[i],
    decreases imps.len(),
{
    if i == 0 {
    } else {
        assert(import_ok(caps, ns, imps.first()));
        assert(imps.drop_first()[i - 1] == imps[i]);
        assert(forall|j: int| 0 <= j < i - 1 ==> imps.drop_first()[j] == imps[j + 1]);
        lemma_first_unsatisfied(caps, ns, imps.drop_first(), i - 1);
    }
}

impl FuncSig {
    /// An element-for-element copy, so that contracts can speak of it.
    pub fn duplicate(&self) -> (r: FuncSig)
        ensures
            r@ == self@,
    {
        let mut params: Vec<ValKind> = Vec::new();
        let mut i: usize = 0;
        while i < self.params.len()
            invariant
                0 <= i <= self.params.len(),
                params@ == self.params@.take(i as int),
            decreases self.params.len() - i,
        {
            params.push(self.params[i]);
            i += 1;
        }
        let mut results: Vec<ValKind> = Vec::new();
        let mut j: usize = 0;
        while j < self.results.len()
            invariant
                0 <= j <= self.results.len(),
                results@ == self.results@.take(j as int),
            decreases self.results.len() - j,
        {
            results.push(self.results[j]);
            j += 1;
        }
        proof {
            assert(params@ =~= self.params@);
            assert(results@ =~= self.results@);
        }
        let r = FuncSig { params, results };
        proof {
            assert(r@.params =~= self@.params);
            assert(r@.results =~= self@.results);
        }
        r
    }
}

impl ExportKind {
    /// A copy whose view equals this one's.
    pub fn duplicate(&self) -> (r: ExportKind)
        ensures
            r@ == self@,
    {
        match self {
            ExportKind::Func(sig) => ExportKind::Func(sig.duplicate()),
            ExportKind::Global => ExportKind::Global,
            ExportKind::Table => ExportKind::Table,
            ExportKind::Memory => ExportKind::Memory,
            ExportKind::Other => ExportKind::Other,
        }
    }
}

/// Builds the namespace that linking the given modules, in the given order,
/// must produce: each module's imports are checked against the host
/// capabilities and the exports placed so far, then its exports are placed
/// under its identifier. The first unsatisfied import aborts the whole
/// operation; no partial namespace is returned.
pub fn plan_link(caps: &Vec<CapDecl>, mods: &Vec<(String, ModuleDecl)>) -> (r: Result<
    Namespace,
    LinkError,
>)
    ensures
        match r {
            Ok(ns) => link_spec(caps_v(caps@), mods_v(mods@)) == Ok::<Seq<EntryV>, UnsatV>(ns@),
            Err(e) => e matches LinkError::UnsatisfiedImport { module_id, import_module, import_name }
                && link_spec(caps_v(caps@), mods_v(mods@)) == Err::<Seq<EntryV>, UnsatV>(
                (UnsatV {
                    module_id: module_id@,
                    import_module: import_module@,
                    import_name: import_name@,
                }),
            ),
        },
{
    let ghost cv = caps_v(caps@);
    let ghost mv = mods_v(mods@);
    let mut ns = Namespace { entries: Vec::new() };
    let len = mods.len();
    let mut k: usize = 0;
    proof {
        assert(ns@ =~= Seq::<EntryV>::empty());
        assert(mv.skip(0) =~= mv);
    }
    while k < len
        invariant
            len == mods.len(),
            cv == caps_v(caps@),
            mv == mods_v(mods@),
            0 <= k <= len,
            link_spec(cv, mv) == link_from(cv, ns@, mv.skip(k as int)),
        decreases len - k,
    {
        let ghost rest = mv.skip(k as int);
        proof {
            assert(rest.len() == len - k);
            assert(rest.first() == (mods@[k as int].0@, mods@[k as int].1@));
        }
        let id = &mods[k].0;
        let decl = &mods[k].1;
        match find_unsatisfied(caps, &ns, &decl.imports) {
            Some(i) => {
                let bad = &decl.imports[i];
                proof {
                    assert(rest.first().1.imports == decl@.imports);
                    assert(!imports_ok(cv, ns@, rest.first().1.imports));
                }
                return Err(LinkError::UnsatisfiedImport {
                    module_id: id.clone(),
                    import_module: bad.module.clone(),
                    import_name: bad.name.clone(),
                });
            },
            None => {
                proof {
                    assert(rest.first().1.imports == decl@.imports);
                    assert(imports_ok(cv, ns@, rest.first().1.imports));
                }
                let ghost before = ns@;
                let n_exp = decl.exports.len();
                let mut j: usize = 0;
                while j < n_exp
                    invariant
                        n_exp == decl.exports.len(),
                        0 <= j <= n_exp,
                        ns@ == before + entries_of(id@, decl@.exports.take(j as int)),
                    decreases n_exp - j,
                {
                    let e = &decl.exports[j];
                    let entry = NsEntry {
                        module_id: id.clone(),
                        name: e.name.clone(),
                        kind: e.kind.duplicate(),
                    };
                    proof {
                        assert(decl@.exports[j as int] == decl.exports@[j as int]@);
                        assert(entry@.module_id == id@);
                        assert(entry@.name == decl@.exports[j as int].name);
                        assert(entry@.kind == decl@.exports[j as int].kind);
                    }
                    let ghost prev = ns@;
                    let ghost ev = entry@;
                    ns.entries.push(entry);
                    proof {
                        assert(ns@ =~= prev.push(ev));
                        assert(decl@.exports.take(j + 1).drop_last() =~= decl@.exports.take(
                            j as int,
                        ));
                        assert(entries_of(id@, decl@.exports.take(j + 1)) =~= entries_of(
                            id@,
                            decl@.exports.take(j as int),
                        ).push(ev));
                        assert(ns@ =~= before + entries_of(id@, decl@.exports.take(j + 1)));
                    }
                    j += 1;
                }
                proof {
                    assert(decl@.exports.take(n_exp as int) =~= decl@.exports);
                    assert(ns@ == before + entries_of(rest.first().0, rest.first().1.exports));
                    assert(mv.skip(k as int).drop_first() =~= mv.skip(k + 1));
                }
            },
        }
        k += 1;
    }
    proof {
        assert(mv.skip(len as int) =~= Seq::<(Seq<char>, DeclV)>::empty());
    }
    Ok(ns)
}

/// Law: linking two modules under the same identifier, where the second
/// exports `name` (last under that name at index `j`), makes a lookup of
/// `name` answer with the second module's export — never the first's,
/// whatever the first exported. Ordered shadowing is last-write-wins.
pub proof fn lemma_link_shadowing(
    caps: Seq<CapV>,
    id: Seq<char>,
    m1: DeclV,
    m2: DeclV,
    name: Seq<char>,
    ns: Seq<EntryV>,
    j: int,
)
    requires
        link_spec(caps, seq![(id, m1), (id, m2)]) == Ok::<Seq<EntryV>, UnsatV>(ns),
        0 <= j < m2.exports.len(),
        m2.exports[j].name == name,
        forall|k: int| j < k < m2.exports.len() ==> m2.exports[k].name != name,
    ensures
        lookup(ns, id, name) == Some(m2.exports[j].kind),
{
    let mods = seq![(id, m1), (id, m2)];
    let e1 = entries_of(id, m1.exports);
    let e2 = entries_of(id, m2.exports);
    let ns0 = Seq::<EntryV>::empty();
    let ns1 = ns0 + e1;
    let ns2 = ns1 + e2;
    let rest = mods.drop_first();
    assert(mods.first() == (id, m1));
    assert(rest =~= seq![(id, m2)]);
    assert(rest.first() == (id, m2));
    if !imports_ok(caps, ns0, m1.imports) {
        assert(link_from(caps, ns0, mods) is Err);
    }
    assert(link_from(caps, ns0, mods) == link_from(caps, ns1, rest));
    if !imports_ok(caps, ns1, m2.imports) {
        assert(link_from(caps, ns1, rest) is Err);
    }
    assert(link_from(caps, ns1, rest) == link_from(caps, ns2, rest.drop_first()));
    assert(rest.drop_first().len() == 0);
    assert(link_from(caps, ns2, rest.drop_first()) == Ok::<Seq<EntryV>, UnsatV>(ns2));
    assert(ns == ns2);
    assert(ns0 + e1 =~= e1);
    assert(ns == e1 + e2);
    let at = e1.len() + j;
    assert(ns[at] == e2[j]);
    assert(ns[at].module_id == id && ns[at].name == name);
    assert(forall|k: int|
        at < k < ns.len() ==> ns[k] == e2[k - e1.len()] && #[trigger] ns[k].name == m2.exports[k
            - e1.len()].name);
    assert(forall|k: int| at < k < ns.len() ==> #[trigger] ns[k].name != name);
    lemma_lookup_at(ns, id, name, at);
}

/// What resolving `(id, name)` at the declared signature `want` yields.
pub open spec fn resolve_spec(
    ns: Seq<EntryV>,
    id: Seq<char>,
    name: Seq<char>,
    want: SigV,
) -> ResolveV {
    match lookup(ns, id, name) {
        Option::None => ResolveV::NotFound,
        Option::Some(KindV::Func(actual)) => if actual.params == want.params && actual.results
            == want.results {
            ResolveV::Found(actual)
        } else {
            ResolveV::SignatureMismatch { expected: want, actual }
        },
        Option::Some(kind) => ResolveV::NotCallable { kind },
    }
}

} // verus!
