use wasmtime::{Config, Engine, Module};

use wasm_harness::native;
use wasm_harness::namespace::{LinkError, ResolveError};
use wasm_harness::session::{CallError, HandleNilI32, Session};
use wasm_harness::sig::ValKind;

const FIXTURE_WAT: &str = r#"(module
  (func $gcd (param i32 i32) (result i32)
    (local i32)
    block
      block
        local.get 0
        br_if 0
        local.get 1
        local.set 2
        br 1
      end
      loop
        local.get 1
        local.get 0
        local.tee 2
        i32.rem_u
        local.set 0
        local.get 2
        local.set 1
        local.get 0
        br_if 0
      end
    end
    local.get 2
  )
  (func $a (result i32)
    i32.const 42
  )
  (func $b (result i32)
    i32.const 56
  )
  (func $c (result i64)
    i64.const 101
  )
  (export "gcd" (func $gcd))
  (export "a" (func $a))
  (export "b" (func $b))
  (export "c" (func $c))
)"#;

const IS_PRIME_WAT: &str = r#"(module
  (func (export "is_prime") (param $n i64) (result i32)
    (local $i i64)
    (local.set $i (i64.const 2))
    (block $exit (result i32)
      (loop $next (result i32)
        (if (i64.gt_u (local.get $i) (i64.const 4294967295))
          (then (br $exit (i32.const -1))))
        (if (i64.gt_u (i64.mul (local.get $i) (local.get $i)) (local.get $n))
          (then (br $exit (i32.const 1))))
        (if (i64.eqz (i64.rem_u (local.get $n) (local.get $i)))
          (then (br $exit (i32.const 0))))
        (local.set $i (i64.add (local.get $i) (i64.const 1)))
        (br $next)
      )
    )
  )
)"#;

/// An engine with small linear-memory reservations, so that tests stay
/// within this machine's address-space limits.
fn engine() -> Engine {
    let mut config = Config::new();
    config.memory_reservation(1 << 20);
    config.memory_guard_size(64 * 1024);
    config.memory_reservation_for_growth(1 << 20);
    Engine::new(&config).expect("engine configuration must be valid")
}

fn module(engine: &Engine, wat: &str) -> Module {
    Module::new(engine, wat).expect("fixture module must compile")
}

#[test]
fn resolved_handles_give_fixture_values() {
    let engine = engine();
    let mut session = Session::new(&engine, ());
    let m = module(&engine, FIXTURE_WAT);
    let ns = session
        .link(&vec![], &vec![(String::new(), m)])
        .expect("the fixture module has no imports");
    let root = String::new();
    let gcd_h = session.resolve_bin_i32(&ns, &root, &"gcd".to_string()).unwrap();
    let a_h = session.resolve_nil_i32(&ns, &root, &"a".to_string()).unwrap();
    let b_h = session.resolve_nil_i32(&ns, &root, &"b".to_string()).unwrap();
    let c_h = session.resolve_nil_u64(&ns, &root, &"c".to_string()).unwrap();

    let a = session.call_nil_i32(&a_h).unwrap();
    let b = session.call_nil_i32(&b_h).unwrap();
    let c = session.call_nil_u64(&c_h).unwrap();
    assert_eq!(a, 42);
    assert_eq!(b, 56);
    assert_eq!(c, 101);

    let guest = session.call_bin_i32(&gcd_h, a, b).unwrap();
    assert_eq!(guest, 14);
    assert_eq!(native::gcd(a, b), 14);
    assert_eq!(guest, native::gcd(a, b));
}

#[test]
fn guest_and_native_gcd_agree() {
    let engine = engine();
    let mut session = Session::new(&engine, ());
    let m = module(&engine, FIXTURE_WAT);
    let ns = session.link(&vec![], &vec![(String::new(), m)]).unwrap();
    let gcd_h = session
        .resolve_bin_i32(&ns, &String::new(), &"gcd".to_string())
        .unwrap();
    let pairs: &[(i32, i32)] = &[
        (42, 56),
        (56, 42),
        (0, 9),
        (9, 0),
        (1, 1),
        (12, 18),
        (100_000, 250),
        (7, 13),
        (1071, 462),
        (2147483647, 2),
    ];
    for &(a, b) in pairs {
        let guest = session.call_bin_i32(&gcd_h, a, b).unwrap();
        let host = native::gcd(a, b);
        assert_eq!(guest, host, "gcd({a}, {b})");
    }
}

#[test]
fn guest_and_native_primality_agree() {
    let engine = engine();
    let mut session = Session::new(&engine, ());
    let m = module(&engine, IS_PRIME_WAT);
    let ns = session.link(&vec![], &vec![(String::new(), m)]).unwrap();
    let h = session
        .resolve_u64_i32(&ns, &String::new(), &"is_prime".to_string())
        .unwrap();
    let targets: &[u64] = &[0, 1, 2, 3, 4, 5, 6, 7, 9, 97, 100, 101, 102, 7919, 7919 * 7919, 104729];
    for &n in targets {
        let guest = session.call_u64_i32(&h, n).unwrap();
        let host = match native::is_prime(n) {
            Some(true) => 1,
            Some(false) => 0,
            None => -1,
        };
        assert_eq!(guest, host, "is_prime({n})");
    }
}

#[test]
fn empty_batch_links_to_an_empty_namespace() {
    // No engine work happens for an empty batch, so linking must succeed.
    let engine = engine();
    let mut session: Session<()> = Session::new(&engine, ());
    let ns = session.link(&vec![], &vec![]).unwrap();
    assert_eq!(ns.entries.len(), 0);
}

#[test]
fn later_module_wins_name_collision() {
    let engine = engine();
    let mut session = Session::new(&engine, ());
    let m1 = module(&engine, r#"(module (func (export "f") (result i32) i32.const 1))"#);
    let m2 = module(&engine, r#"(module (func (export "f") (result i32) i32.const 2))"#);
    let ns = session
        .link(&vec![], &vec![(String::new(), m1), (String::new(), m2)])
        .unwrap();
    let h = session.resolve_nil_i32(&ns, &String::new(), &"f".to_string()).unwrap();
    assert_eq!(session.call_nil_i32(&h).unwrap(), 2);
}

#[test]
fn unsatisfied_import_fails_before_any_instantiation() {
    let engine = engine();
    let mut session = Session::new(&engine, ());
    // The first module's start routine would trap if it ever ran; linking
    // must fail on the second module's import before instantiating anything,
    // so the reported error is the unsatisfied import, not a trap.
    let trapper = module(
        &engine,
        r#"(module (func $s unreachable) (start $s) (export "s" (func $s)))"#,
    );
    let bad = module(
        &engine,
        r#"(module (import "nosuch" "missing" (func)) (func (export "g") (result i32) i32.const 7))"#,
    );
    let r = session.link(&vec![], &vec![("m1".to_string(), trapper), ("m2".to_string(), bad)]);
    match r {
        Err(LinkError::UnsatisfiedImport { module_id, import_module, import_name }) => {
            assert_eq!(module_id, "m2");
            assert_eq!(import_module, "nosuch");
            assert_eq!(import_name, "missing");
        }
        other => panic!("expected an unsatisfied import, got {:?}", other),
    }
}

#[test]
fn start_routine_trap_surfaces_as_engine_error() {
    let engine = engine();
    let mut session = Session::new(&engine, ());
    // With every import satisfied, the module is instantiated and its start
    // routine runs; its trap aborts the link as an engine failure.
    let trapper = module(
        &engine,
        r#"(module (func $s unreachable) (start $s) (export "s" (func $s)))"#,
    );
    match session.link(&vec![], &vec![(String::new(), trapper)]) {
        Err(LinkError::Engine { message }) => assert!(!message.is_empty()),
        other => panic!("expected an engine failure, got {:?}", other),
    }
}

#[test]
fn import_satisfied_by_earlier_module_links_and_calls() {
    let engine = engine();
    let mut session = Session::new(&engine, ());
    let provider = module(&engine, r#"(module (func (export "dep") (result i32) i32.const 9))"#);
    let consumer = module(
        &engine,
        r#"(module (import "lib" "dep" (func $d (result i32))) (func (export "use") (result i32) (call $d)))"#,
    );
    let ns = session
        .link(
            &vec![],
            &vec![("lib".to_string(), provider), (String::new(), consumer)],
        )
        .unwrap();
    let h = session.resolve_nil_i32(&ns, &String::new(), &"use".to_string()).unwrap();
    assert_eq!(session.call_nil_i32(&h).unwrap(), 9);
}

#[test]
fn signature_mismatch_reports_both_signatures() {
    let engine = engine();
    let mut session = Session::new(&engine, ());
    let m = module(&engine, FIXTURE_WAT);
    let ns = session.link(&vec![], &vec![(String::new(), m)]).unwrap();
    // "gcd" is (i32, i32) -> i32; declaring it as () -> i32 must fail.
    let r = session.resolve_nil_i32(&ns, &String::new(), &"gcd".to_string());
    match r {
        Err(ResolveError::SignatureMismatch { expected, actual }) => {
            assert_eq!(expected.params, vec![]);
            assert_eq!(expected.results, vec![ValKind::I32]);
            assert_eq!(actual.params, vec![ValKind::I32, ValKind::I32]);
            assert_eq!(actual.results, vec![ValKind::I32]);
        }
        other => panic!("expected a signature mismatch, got {:?}", other),
    }
}

#[test]
fn resolving_absent_or_noncallable_exports_fails() {
    let engine = engine();
    let mut session = Session::new(&engine, ());
    let m = module(&engine, r#"(module (memory (export "mem") 1))"#);
    let ns = session.link(&vec![], &vec![(String::new(), m)]).unwrap();
    let r = session.resolve_nil_i32(&ns, &String::new(), &"absent".to_string());
    assert!(matches!(r, Err(ResolveError::NotFound)));
    let r = session.resolve_nil_i32(&ns, &String::new(), &"mem".to_string());
    assert!(matches!(r, Err(ResolveError::NotCallable)));
}

#[test]
fn guest_trap_propagates_verbatim() {
    let engine = engine();
    let mut session = Session::new(&engine, ());
    let m = module(&engine, r#"(module (func (export "boom") (result i32) unreachable))"#);
    let ns = session.link(&vec![], &vec![(String::new(), m)]).unwrap();
    let h = session.resolve_nil_i32(&ns, &String::new(), &"boom".to_string()).unwrap();
    match session.call_nil_i32(&h) {
        Err(CallError::Trap { message }) => {
            assert!(!message.is_empty());
        }
        other => panic!("expected a trap, got {:?}", other),
    }
}

#[test]
fn handle_from_another_session_is_refused() {
    let engine = engine();
    let mut session = Session::new(&engine, ());
    let m = module(&engine, FIXTURE_WAT);
    let ns = session.link(&vec![], &vec![(String::new(), m)]).unwrap();
    let h: HandleNilI32 = session.resolve_nil_i32(&ns, &String::new(), &"a".to_string()).unwrap();

    let mut fresh: Session<()> = Session::new(&engine, ());
    assert!(matches!(fresh.call_nil_i32(&h), Err(CallError::InvalidHandle)));
}

#[test]
fn fresh_sessions_relink_the_same_modules() {
    // The comparative driver rebuilds store and namespace each iteration;
    // the same precompiled module must link and resolve freshly every time.
    let engine = engine();
    let m = module(&engine, FIXTURE_WAT);
    for _ in 0..3 {
        let mut session = Session::new(&engine, ());
        let ns = session.link(&vec![], &vec![(String::new(), m.clone())]).unwrap();
        let a_h = session.resolve_nil_i32(&ns, &String::new(), &"a".to_string()).unwrap();
        assert_eq!(session.call_nil_i32(&a_h).unwrap(), 42);
    }
}

#[test]
fn benchmark_over_guest_calls_keeps_results() {
    let engine = engine();
    let mut session = Session::new(&engine, ());
    let m = module(&engine, FIXTURE_WAT);
    let ns = session.link(&vec![], &vec![(String::new(), m)]).unwrap();
    let gcd_h = session.resolve_bin_i32(&ns, &String::new(), &"gcd".to_string()).unwrap();
    let mut results = Vec::new();
    for _ in 0..50 {
        results.push(session.call_bin_i32(&gcd_h, 42, 56).unwrap());
    }
    let (_elapsed, native_results) = wasm_harness::bench::benchmark(|| native::gcd(42, 56), 50);
    assert_eq!(results, native_results);
}
