use wasm_harness::namespace::{
    plan_link, lookup_index, CapDecl, ExportDecl, ExportKind, ImportDecl, LinkError, ModuleDecl,
};
use wasm_harness::sig::{FuncSig, ValKind};

fn func_sig(params: Vec<ValKind>, results: Vec<ValKind>) -> ExportKind {
    ExportKind::Func(FuncSig { params, results })
}

fn export(name: &str, kind: ExportKind) -> ExportDecl {
    ExportDecl { name: name.to_string(), kind }
}

fn import(module: &str, name: &str) -> ImportDecl {
    ImportDecl { module: module.to_string(), name: name.to_string() }
}

#[test]
fn linking_places_exports_under_identifiers() {
    let m = ModuleDecl {
        imports: vec![],
        exports: vec![
            export("a", func_sig(vec![], vec![ValKind::I32])),
            export("mem", ExportKind::Memory),
        ],
    };
    let ns = plan_link(&vec![], &vec![("lib".to_string(), m)]).unwrap();
    assert_eq!(ns.entries.len(), 2);
    assert_eq!(ns.entries[0].module_id, "lib");
    assert_eq!(ns.entries[0].name, "a");
    assert_eq!(ns.entries[1].name, "mem");
    let lib = "lib".to_string();
    assert_eq!(lookup_index(&ns, &lib, &"a".to_string()), Some(0));
    assert_eq!(lookup_index(&ns, &lib, &"nope".to_string()), None);
    assert_eq!(lookup_index(&ns, &"other".to_string(), &"a".to_string()), None);
}

#[test]
fn later_module_shadows_earlier_export() {
    let m1 = ModuleDecl {
        imports: vec![],
        exports: vec![export("f", func_sig(vec![], vec![ValKind::I32]))],
    };
    let m2 = ModuleDecl {
        imports: vec![],
        exports: vec![export("f", func_sig(vec![ValKind::I64], vec![ValKind::I32]))],
    };
    let ns = plan_link(
        &vec![],
        &vec![("".to_string(), m1), ("".to_string(), m2)],
    )
    .unwrap();
    // Both entries stay, in insertion order; the lookup answers with the
    // later one.
    assert_eq!(ns.entries.len(), 2);
    let idx = lookup_index(&ns, &"".to_string(), &"f".to_string()).unwrap();
    assert_eq!(idx, 1);
    match &ns.entries[idx].kind {
        ExportKind::Func(sig) => assert_eq!(sig.params, vec![ValKind::I64]),
        other => panic!("expected a function export, got {:?}", other),
    }
}

#[test]
fn unsatisfied_import_aborts_whole_link() {
    let good = ModuleDecl {
        imports: vec![],
        exports: vec![export("ok", func_sig(vec![], vec![ValKind::I32]))],
    };
    let bad = ModuleDecl {
        imports: vec![import("nosuch", "missing")],
        exports: vec![export("g", func_sig(vec![], vec![ValKind::I32]))],
    };
    let r = plan_link(
        &vec![],
        &vec![("a".to_string(), good), ("b".to_string(), bad)],
    );
    match r {
        Err(LinkError::UnsatisfiedImport { module_id, import_module, import_name }) => {
            assert_eq!(module_id, "b");
            assert_eq!(import_module, "nosuch");
            assert_eq!(import_name, "missing");
        }
        other => panic!("expected an unsatisfied import, got {:?}", other),
    }
}

#[test]
fn import_satisfied_by_earlier_module_or_capability() {
    let provider = ModuleDecl {
        imports: vec![],
        exports: vec![export("dep", func_sig(vec![], vec![ValKind::I32]))],
    };
    let consumer = ModuleDecl {
        imports: vec![import("lib", "dep"), import("host", "clock")],
        exports: vec![export("use", func_sig(vec![], vec![ValKind::I32]))],
    };
    let caps = vec![CapDecl { module: "host".to_string(), name: "clock".to_string() }];
    let ns = plan_link(
        &caps,
        &vec![("lib".to_string(), provider), ("".to_string(), consumer)],
    )
    .unwrap();
    assert_eq!(ns.entries.len(), 2);

    // Order matters: the consumer first cannot see the provider's export.
    let provider2 = ModuleDecl {
        imports: vec![],
        exports: vec![export("dep", func_sig(vec![], vec![ValKind::I32]))],
    };
    let consumer2 = ModuleDecl {
        imports: vec![import("lib", "dep")],
        exports: vec![export("use", func_sig(vec![], vec![ValKind::I32]))],
    };
    let r = plan_link(
        &vec![],
        &vec![("".to_string(), consumer2), ("lib".to_string(), provider2)],
    );
    assert!(matches!(r, Err(LinkError::UnsatisfiedImport { .. })));
}

#[test]
fn empty_link_gives_empty_namespace() {
    let ns = plan_link(&vec![], &vec![]).unwrap();
    assert_eq!(ns.entries.len(), 0);
}
