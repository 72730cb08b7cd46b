use js::codec::decode_utf16_lossy;
use js::codec::encode_utf16_units;
use js::codec::take_until_nul;
use js::codec::latin1_to_points;
use js::codec::REPLACEMENT_POINT;
use js::collections::AutoObjectVectorWrapper;
use js::collections::CompileOptionsWrapper;
use js::collections::IdVector;
use js::compartment::GlobalObject;
use js::props::check_methods_terminated;
use js::props::check_properties_terminated;
use js::props::define_methods;
use js::props::define_properties;
use js::props::FunctionSpec;
use js::props::NativeWrapper;
use js::props::PropertySpec;
use js::rooting::Rooted;
use js::rooting::RootedGuard;
use js::runtime::Engine;
use js::runtime::ErrorReport;
use js::runtime::report_warning;
use js::runtime::Runtime;
use js::runtime::STACK_QUOTA;
use js::runtime::SYSTEM_CODE_BUFFER;
use js::runtime::TRUSTED_SCRIPT_BUFFER;
use js::value::RootValue;
use js::value::Value;

#[test]
fn engine_initializes_exactly_once() {
    let mut engine = Engine::new();
    assert_eq!(engine.init_runs, 0);
    let rt1 = Runtime::new(&mut engine);
    assert!(engine.initialized);
    assert!(engine.parent_alive);
    assert_eq!(engine.init_runs, 1);
    let rt2 = Runtime::new(&mut engine);
    // the second context found the latch closed
    assert_eq!(engine.init_runs, 1);
    assert_eq!(engine.live_contexts, 2);
    rt1.destroy(&mut engine);
    rt2.destroy(&mut engine);
    assert_eq!(engine.live_contexts, 0);
    assert_eq!(engine.init_runs, 1);
}

#[test]
fn new_context_configuration() {
    let mut engine = Engine::new();
    let rt = Runtime::new(&mut engine);
    let cx = rt.cx();
    assert_eq!(cx.gc_max_bytes, u32::MAX);
    assert_eq!(cx.stack_quota_system, STACK_QUOTA);
    assert_eq!(cx.stack_quota_trusted, STACK_QUOTA - SYSTEM_CODE_BUFFER);
    assert_eq!(
        cx.stack_quota_untrusted,
        STACK_QUOTA - SYSTEM_CODE_BUFFER - TRUSTED_SCRIPT_BUFFER
    );
    assert!(cx.stack_quota_system > cx.stack_quota_trusted);
    assert!(cx.stack_quota_trusted > cx.stack_quota_untrusted);
    assert!(cx.warning_reporter_installed);
    rt.destroy(&mut engine);
}

#[test]
fn evaluate_empty_source_succeeds() {
    let mut engine = Engine::new();
    let mut rt = Runtime::new(&mut engine);
    let rval = RootedGuard::new(
        rt.cx_mut(),
        Rooted::new_unrooted(RootValue::Tagged(Value::Undefined)),
    );
    let global = GlobalObject { object: 1, compartment: 10 };
    let r = rt.evaluate_script(
        &global,
        "",
        "test.js",
        1,
        rval.handle_mut(),
        Ok(Value::Undefined),
    );
    assert_eq!(r, Ok(()));
    assert_eq!(rt.cx().compartment(), None);
    assert_eq!(rt.cx().live_compile_options, 0);
    assert!(rval.remove_from_root_stack(rt.cx_mut()).is_ok());
    rt.destroy(&mut engine);
}

#[test]
fn evaluate_one_plus_one_roots_the_numeric_result() {
    let mut engine = Engine::new();
    let mut rt = Runtime::new(&mut engine);
    let rval = RootedGuard::new(
        rt.cx_mut(),
        Rooted::new_unrooted(RootValue::Tagged(Value::Undefined)),
    );
    let global = GlobalObject { object: 1, compartment: 10 };
    let r = rt.evaluate_script(
        &global,
        "1+1",
        "test.js",
        1,
        rval.handle_mut(),
        Ok(Value::Int32(2)),
    );
    assert_eq!(r, Ok(()));
    assert_eq!(rval.get(rt.cx()), RootValue::Tagged(Value::Int32(2)));
    assert_eq!(rt.cx().compartment(), None);
    assert!(rval.remove_from_root_stack(rt.cx_mut()).is_ok());
    rt.destroy(&mut engine);
}

#[test]
fn evaluate_failure_surfaces_and_leaves_the_slot_untouched() {
    let mut engine = Engine::new();
    let mut rt = Runtime::new(&mut engine);
    let rval = RootedGuard::new(
        rt.cx_mut(),
        Rooted::new_unrooted(RootValue::Tagged(Value::Int32(9))),
    );
    let global = GlobalObject { object: 1, compartment: 10 };
    let r = rt.evaluate_script(&global, "throw 0", "test.js", 1, rval.handle_mut(), Err(()));
    assert_eq!(r, Err(()));
    assert_eq!(rval.get(rt.cx()), RootValue::Tagged(Value::Int32(9)));
    assert_eq!(rt.cx().compartment(), None);
    assert_eq!(rt.cx().live_compile_options, 0);
    assert!(rval.remove_from_root_stack(rt.cx_mut()).is_ok());
    rt.destroy(&mut engine);
}

#[test]
fn encode_utf16_handles_empty_bmp_and_astral_text() {
    assert_eq!(encode_utf16_units(""), Vec::<u16>::new());
    assert_eq!(encode_utf16_units("1+1"), vec![49u16, 43, 49]);
    assert_eq!(encode_utf16_units("é"), vec![0xE9u16]);
    assert_eq!(encode_utf16_units("😀"), vec![0xD83Du16, 0xDE00]);
    assert_eq!(
        encode_utf16_units("a😀b"),
        vec![97u16, 0xD83D, 0xDE00, 98]
    );
}

#[test]
fn decode_utf16_combines_pairs_and_replaces_lone_surrogates() {
    assert_eq!(decode_utf16_lossy(&vec![0x48u16, 0x69]), vec![0x48u32, 0x69]);
    assert_eq!(decode_utf16_lossy(&vec![0xD83Du16, 0xDE00]), vec![0x1F600u32]);
    assert_eq!(
        decode_utf16_lossy(&vec![0xD800u16]),
        vec![REPLACEMENT_POINT]
    );
    assert_eq!(
        decode_utf16_lossy(&vec![0xDC00u16, 0x41]),
        vec![REPLACEMENT_POINT, 0x41u32]
    );
}

#[test]
fn warning_report_decodes_filename_and_message() {
    let report = ErrorReport {
        filename: Some(vec![0x61, 0x2E, 0x6A, 0x73, 0xE9]),
        lineno: 3,
        column: 14,
        message: vec![0x48, 0x69, 0, 0x21],
    };
    let w = report_warning(&report);
    assert_eq!(w.filename, vec![0x61u32, 0x2E, 0x6A, 0x73, 0xE9]);
    assert_eq!(w.lineno, 3);
    assert_eq!(w.column, 14);
    // the message stops at its nul terminator
    assert_eq!(w.message, vec![0x48u32, 0x69]);
}

#[test]
fn warning_report_without_filename_uses_placeholder() {
    let report = ErrorReport { filename: None, lineno: 1, column: 0, message: vec![0x41, 0] };
    let w = report_warning(&report);
    // "none", as code points
    assert_eq!(w.filename, vec![110u32, 111, 110, 101]);
    assert_eq!(w.message, vec![0x41u32]);
}

#[test]
fn nul_free_message_is_taken_whole() {
    let units = vec![0x41u16, 0x42];
    assert_eq!(take_until_nul(&units), vec![0x41u16, 0x42]);
    assert_eq!(latin1_to_points(&vec![0u8, 255]), vec![0u32, 255]);
}

#[test]
fn auxiliary_vectors_balance_their_allocations() {
    let mut engine = Engine::new();
    let mut rt = Runtime::new(&mut engine);
    let mut objects = AutoObjectVectorWrapper::new(rt.cx_mut());
    assert_eq!(rt.cx().live_object_vectors, 1);
    assert!(objects.append(11));
    assert!(objects.append(22));
    assert_eq!(objects.len(), 2);
    assert_eq!(objects.get(0), 11);
    assert_eq!(objects.get(1), 22);
    objects.release(rt.cx_mut());
    assert_eq!(rt.cx().live_object_vectors, 0);

    let ids = IdVector::new(rt.cx_mut());
    assert_eq!(rt.cx().live_id_vectors, 1);
    assert_eq!(ids.len(), 0);
    assert!(ids.get().is_empty());
    ids.release(rt.cx_mut());
    assert_eq!(rt.cx().live_id_vectors, 0);

    let options = CompileOptionsWrapper::new(rt.cx_mut(), "test.js".as_bytes(), 7);
    assert_eq!(rt.cx().live_compile_options, 1);
    assert_eq!(options.filename, "test.js".as_bytes().to_vec());
    assert_eq!(options.line, 7);
    options.release(rt.cx_mut());
    assert_eq!(rt.cx().live_compile_options, 0);
    rt.destroy(&mut engine);
}

fn zero_function_entry() -> FunctionSpec {
    FunctionSpec {
        name: None,
        call: NativeWrapper { op_present: false, info: 0 },
        nargs: 0,
        flags: 0,
        self_hosted_name: None,
    }
}

fn zero_property_entry() -> PropertySpec {
    PropertySpec {
        name: None,
        flags: 0,
        getter: NativeWrapper { op_present: false, info: 0 },
        setter: NativeWrapper { op_present: false, info: 0 },
    }
}

#[test]
fn define_methods_requires_a_zeroed_terminator() {
    let mut methods = Vec::new();
    methods.push(FunctionSpec {
        name: Some(b"frob".to_vec()),
        call: NativeWrapper { op_present: true, info: 1 },
        nargs: 2,
        flags: 0,
        self_hosted_name: None,
    });
    assert!(!check_methods_terminated(&methods));
    methods.push(zero_function_entry());
    assert!(check_methods_terminated(&methods));
    assert_eq!(define_methods(5, &methods, true), Ok(()));
    assert_eq!(define_methods(5, &methods, false), Err(()));
    assert!(!check_methods_terminated(&Vec::new()));
}

#[test]
fn define_properties_requires_a_zeroed_terminator() {
    let mut properties = Vec::new();
    properties.push(PropertySpec {
        name: Some(b"x".to_vec()),
        flags: 1,
        getter: NativeWrapper { op_present: true, info: 2 },
        setter: NativeWrapper { op_present: false, info: 0 },
    });
    assert!(!check_properties_terminated(&properties));
    properties.push(zero_property_entry());
    assert!(check_properties_terminated(&properties));
    assert_eq!(define_properties(5, &properties, true), Ok(()));
    assert_eq!(define_properties(5, &properties, false), Err(()));
}
