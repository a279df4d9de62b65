//! Tests of the runtime bridge, on byte buffers and on a small module.

use contract_forge::commands::call;
use contract_forge::commands::schema;
use contract_forge::commands::verify;
use contract_forge::data_driver_wasm::{
    align_up, engine_config, input_layout, module_outcome, pages_to_grow, prefixed, read_prefixed,
    required_pages, status_error, text_at, BridgeError, BridgeEvent, BridgeState, DataDriverWasm,
    InputLayout,
};

const SCHEMA: &str = r#"{"name":"Counter","imports":[],"functions":[{"name":"get_count","doc":"","input":"()","output":"u64","custom":false}],"events":[]}"#;
const FAILURE: &str = "unsupported: encode_input: unknown fn nonexistent";

fn leb(mut value: u64, out: &mut Vec<u8>) {
    loop {
        let byte = (value & 0x7f) as u8;
        value >>= 7;
        if value == 0 {
            out.push(byte);
            break;
        }
        out.push(byte | 0x80);
    }
}

fn sleb(mut value: i64, out: &mut Vec<u8>) {
    loop {
        let byte = (value & 0x7f) as u8;
        value >>= 7;
        let done = (value == 0 && byte & 0x40 == 0) || (value == -1 && byte & 0x40 != 0);
        if done {
            out.push(byte);
            break;
        }
        out.push(byte | 0x80);
    }
}

fn section(id: u8, body: Vec<u8>, out: &mut Vec<u8>) {
    out.push(id);
    leb(body.len() as u64, out);
    out.extend(body);
}

fn name(text: &str, out: &mut Vec<u8>) {
    leb(text.len() as u64, out);
    out.extend(text.as_bytes());
}

fn i32_const(value: i64, out: &mut Vec<u8>) {
    out.push(0x41);
    sleb(value, out);
}

/// Writes `len` as a prefix at the address in local `out_local` and copies
/// `len` bytes from `source` behind it.
fn write_prefixed(out_local: u8, len: &[u8], source: &[u8], code: &mut Vec<u8>) {
    code.extend([0x20, out_local]);
    code.extend(len);
    code.extend([0x36, 0x02, 0x00]);
    code.extend([0x20, out_local]);
    i32_const(4, code);
    code.push(0x6a);
    code.extend(source);
    code.extend(len);
    code.extend([0xfc, 0x0a, 0x00, 0x00]);
}

fn body(code: Vec<u8>, out: &mut Vec<u8>) {
    let mut whole = vec![0x00];
    whole.extend(code);
    whole.push(0x0b);
    leb(whole.len() as u64, out);
    out.extend(whole);
}

/// A data driver whose schema is `SCHEMA`, which encodes an input by
/// handing its JSON text back, and which fails for function names of
/// eleven bytes with the message `FAILURE`. `with_memory` and
/// `schema_status` vary the module for the failure cases.
fn driver_module(with_memory: bool, schema_status: i64) -> Vec<u8> {
    let mut module = vec![0x00, 0x61, 0x73, 0x6d, 0x01, 0x00, 0x00, 0x00];

    let mut types = vec![3, 0x60, 0, 0, 0x60, 2, 0x7f, 0x7f, 1, 0x7f, 0x60, 6];
    types.extend([0x7f; 6]);
    types.extend([1, 0x7f]);
    section(1, types, &mut module);
    section(3, vec![4, 0, 1, 2, 1], &mut module);
    section(5, vec![1, 0x00, 1], &mut module);

    let mut exports = Vec::new();
    exports.push(if with_memory { 5 } else { 4 });
    if with_memory {
        name("memory", &mut exports);
        exports.extend([0x02, 0]);
    }
    for (index, export) in ["init", "get_schema", "encode_input_fn", "get_last_error"]
        .iter()
        .enumerate()
    {
        name(export, &mut exports);
        exports.extend([0x00, index as u8]);
    }
    section(7, exports, &mut module);

    let mut code = vec![4];
    body(Vec::new(), &mut code);

    let mut get_schema = Vec::new();
    let mut len = Vec::new();
    i32_const(SCHEMA.len() as i64, &mut len);
    let mut source = Vec::new();
    i32_const(16, &mut source);
    write_prefixed(0, &len, &source, &mut get_schema);
    i32_const(schema_status, &mut get_schema);
    body(get_schema, &mut code);

    let mut encode = Vec::new();
    encode.extend([0x20, 1]);
    i32_const(11, &mut encode);
    encode.push(0x46);
    encode.extend([0x04, 0x7f]);
    i32_const(1, &mut encode);
    encode.push(0x05);
    write_prefixed(4, &[0x20, 3], &[0x20, 2], &mut encode);
    i32_const(0, &mut encode);
    encode.push(0x0b);
    body(encode, &mut code);

    let mut last_error = Vec::new();
    let mut len = Vec::new();
    i32_const(FAILURE.len() as i64, &mut len);
    let mut source = Vec::new();
    i32_const(512, &mut source);
    write_prefixed(0, &len, &source, &mut last_error);
    i32_const(0, &mut last_error);
    body(last_error, &mut code);
    section(10, code, &mut module);

    let mut data = vec![2];
    for (offset, text) in [(16, SCHEMA), (512, FAILURE)] {
        data.push(0x00);
        i32_const(offset, &mut data);
        data.push(0x0b);
        name(text, &mut data);
    }
    section(11, data, &mut module);
    module
}

fn load() -> DataDriverWasm {
    DataDriverWasm::load(&driver_module(true, 0)).expect("the module loads")
}

#[test]
fn scenario_schema_fetch_grows_the_memory_once() {
    let mut driver = load();
    assert_eq!(driver.page_count(), 1);
    assert!(driver.growth_calls().is_empty());
    let schema = driver.get_schema_json().expect("the schema is served");
    assert_eq!(schema, SCHEMA);
    // 64 KiB + 256 KiB are five pages: four more than the one there was.
    assert_eq!(driver.growth_calls(), &vec![4]);
    assert_eq!(driver.page_count(), 5);
    // A second fetch finds the memory large enough.
    assert_eq!(driver.get_schema_json().unwrap(), SCHEMA);
    assert_eq!(driver.growth_calls(), &vec![4]);
    assert_eq!(driver.page_count(), 5);
}

#[test]
fn ensure_memory_capacity_is_minimal_and_idempotent() {
    let mut driver = load();
    driver.ensure_memory_capacity(65_536).unwrap();
    assert_eq!(driver.page_count(), 1);
    driver.ensure_memory_capacity(65_537).unwrap();
    assert_eq!(driver.page_count(), 2);
    driver.ensure_memory_capacity(65_537).unwrap();
    driver.ensure_memory_capacity(1).unwrap();
    driver.ensure_memory_capacity(0).unwrap();
    assert_eq!(driver.page_count(), 2);
    assert_eq!(driver.growth_calls(), &vec![1]);
}

#[test]
fn encode_input_reads_back_what_the_module_wrote() {
    let mut driver = load();
    let encoded = driver.encode_input("set_count", "42").expect("the input is encoded");
    assert_eq!(encoded, b"42");
    assert!(driver.growth_calls().is_empty());
    let long = "7".repeat(40_000);
    let encoded = driver.encode_input("set_count", &long).unwrap();
    assert_eq!(encoded, long.as_bytes());
    // The output region of 80000 bytes ends beyond the first page.
    assert_eq!(driver.growth_calls(), &vec![1]);
    assert_eq!(call::run(&mut driver, "f", "[1,2]").unwrap(), "0x5b312c325d");
}

#[test]
fn a_failed_status_carries_the_modules_message() {
    let mut driver = load();
    let err = driver.encode_input("nonexistent", "null").unwrap_err();
    match &err {
        BridgeError::Status { entry, code, detail } => {
            assert_eq!(entry, "encode_input_fn");
            assert_eq!(*code, 1);
            assert_eq!(detail, FAILURE);
        }
        other => panic!("expected a status, found {other:?}"),
    }
    assert_eq!(
        err.message(),
        "encode_input_fn failed with code 1: unsupported: encode_input: unknown fn nonexistent"
    );
    let mut failing = DataDriverWasm::load(&driver_module(true, -7)).unwrap();
    assert_eq!(
        failing.get_schema_json().unwrap_err().message(),
        format!("get_schema failed with code -7: {FAILURE}")
    );
    assert!(call::run(&mut driver, "nonexistent", "null").unwrap_err().message().contains(FAILURE));
}

#[test]
fn malformed_modules_fail_at_load() {
    assert!(matches!(DataDriverWasm::load(&vec![1, 2, 3]), Err(BridgeError::Module { .. })));
    assert!(matches!(
        DataDriverWasm::validate_module(&vec![0x00, 0x61, 0x73]),
        Err(BridgeError::Module { .. })
    ));
    assert!(DataDriverWasm::validate_module(&driver_module(true, 0)).is_ok());
    assert!(DataDriverWasm::validate_module(&driver_module(false, 0)).is_ok());
    match DataDriverWasm::load(&driver_module(false, 0)) {
        Err(err) => {
            assert!(matches!(err, BridgeError::MissingExport { .. }));
            assert_eq!(err.message(), "WASM export 'memory' not found");
        }
        Ok(_) => panic!("a module without memory must not load"),
    }
    // A module without any export lacks its memory first.
    let empty = vec![0x00, 0x61, 0x73, 0x6d, 0x01, 0x00, 0x00, 0x00];
    assert!(matches!(DataDriverWasm::load(&empty), Err(BridgeError::MissingExport { .. })));
}

#[test]
fn writes_and_reads_stay_within_the_memory() {
    let mut driver = load();
    driver.write_bytes(100, &vec![3, 0, 0, 0, 7, 8, 9, 10]).unwrap();
    assert_eq!(driver.read_prefixed_bytes(100).unwrap(), vec![7, 8, 9]);
    driver.write_bytes(65_536 - 4, &vec![0, 0, 0, 0]).unwrap();
    assert_eq!(driver.read_prefixed_bytes(65_536 - 4).unwrap(), Vec::<u8>::new());
    let err = driver.write_bytes(65_533, &vec![1, 2, 3, 4]).unwrap_err();
    assert_eq!(err.message(), "WASM write out of bounds (offset=65533, len=4)");
    let err = driver.write_bytes(usize::MAX, &vec![1]).unwrap_err();
    assert!(matches!(err, BridgeError::WriteOutOfBounds { .. }));
    assert!(matches!(
        driver.read_prefixed_bytes(65_533).unwrap_err(),
        BridgeError::ReadOutOfBounds
    ));
    driver.write_bytes(200, &vec![0xff, 0xff, 0xff, 0x7f]).unwrap();
    let err = driver.read_prefixed_bytes(200).unwrap_err();
    assert!(matches!(err, BridgeError::OutputExceedsMemory));
    assert_eq!(err.message(), "WASM output exceeds memory bounds");
}

#[test]
fn schema_command_rewrites_the_schema() {
    let mut driver = load();
    let compact = schema::run(&mut driver, false).unwrap();
    assert_eq!(
        compact,
        r#"{"events":[],"functions":[{"custom":false,"doc":"","input":"()","name":"get_count","output":"u64"}],"imports":[],"name":"Counter"}"#
    );
    let pretty = schema::run(&mut driver, true).unwrap();
    assert!(pretty.starts_with("{\n  \"events\": [],\n  \"functions\": [\n    {"));
    assert!(pretty.contains("\"name\": \"Counter\""));
    assert!(schema::render_schema("{\"a\": [1, 2]}", false).unwrap() == "{\"a\":[1,2]}");
    assert!(schema::render_schema("not json", false).is_err());
}

#[test]
fn verify_command_checks_hash_and_schema() {
    let module = driver_module(true, 0);
    let report = verify::run(&module, &module, None).expect("the artifacts verify");
    assert_eq!(report.schema_contract, "Counter");
    assert_eq!(report.schema_functions, 1);
    assert_eq!(report.contract_blake3.len(), 64);
    let upper = format!("0x{}", report.contract_blake3.to_uppercase());
    assert!(verify::run(&module, &module, Some(&upper)).is_ok());
    let err = verify::run(&module, &module, Some("0xabc")).unwrap_err();
    assert_eq!(
        err.message(),
        format!("BLAKE3 mismatch: expected abc, got {}", report.contract_blake3)
    );
    assert!(verify::run(&vec![0], &module, None).is_err());
    assert!(verify::run(&module, &driver_module(false, 0), None).is_err());
}

#[test]
fn pages_cover_the_required_bytes() {
    assert_eq!(required_pages(0), 0);
    assert_eq!(required_pages(1), 1);
    assert_eq!(required_pages(65_536), 1);
    assert_eq!(required_pages(65_537), 2);
    assert_eq!(required_pages(327_680), 5);
    assert_eq!(required_pages(u64::MAX), 281_474_976_710_656);
    assert_eq!(pages_to_grow(1, 327_680), 4);
    assert_eq!(pages_to_grow(5, 327_680), 0);
    assert_eq!(pages_to_grow(9, 327_680), 0);
    assert_eq!(pages_to_grow(0, 1), 1);
    assert_eq!(pages_to_grow(0, 0), 0);
}

#[test]
fn align_up_rounds_to_multiples() {
    assert_eq!(align_up(0, 8), 0);
    assert_eq!(align_up(1, 8), 8);
    assert_eq!(align_up(8, 8), 8);
    assert_eq!(align_up(1049, 8), 1056);
    assert_eq!(align_up(7, 1), 7);
    assert_eq!(align_up(10, 3), 12);
}

#[test]
fn input_regions_are_laid_out_in_order() {
    assert_eq!(
        input_layout(9, 4),
        Some(InputLayout { name_offset: 1024, json_offset: 1056, out_offset: 1080, out_size: 4096 })
    );
    assert_eq!(
        input_layout(0, 0),
        Some(InputLayout { name_offset: 1024, json_offset: 1040, out_offset: 1056, out_size: 4096 })
    );
    assert_eq!(
        input_layout(8, 3000),
        Some(InputLayout { name_offset: 1024, json_offset: 1048, out_offset: 4064, out_size: 6000 })
    );
    assert!(input_layout(0x7fff_ffff, 0).is_none());
    assert!(input_layout(0, 0x4000_0000).is_none());
    assert!(input_layout(usize::MAX, 1).is_none());
}

#[test]
fn prefixed_buffers_are_read_to_their_declared_length() {
    let mut data = vec![9, 9];
    data.extend(prefixed(&vec![1, 2, 3]));
    data.extend([4, 5, 6, 7]);
    assert_eq!(data, vec![9, 9, 3, 0, 0, 0, 1, 2, 3, 4, 5, 6, 7]);
    assert_eq!(read_prefixed(&data, 2).unwrap(), vec![1, 2, 3]);
    assert_eq!(read_prefixed(&vec![5, 0, 0, 0, 0, 8], 1).unwrap(), Vec::<u8>::new());
    assert!(matches!(read_prefixed(&data, 3), Err(BridgeError::OutputExceedsMemory)));
    assert!(matches!(read_prefixed(&data, 10), Err(BridgeError::ReadOutOfBounds)));
    assert!(matches!(read_prefixed(&data, 13), Err(BridgeError::ReadOutOfBounds)));
    assert!(matches!(read_prefixed(&data, usize::MAX), Err(BridgeError::ReadOutOfBounds)));
    assert!(matches!(read_prefixed(&data, 8), Err(BridgeError::OutputExceedsMemory)));
    assert_eq!(read_prefixed(&vec![2, 1, 0, 0], 0).unwrap_err().message(), "WASM output exceeds memory bounds");
    let long = vec![7u8; 70_000];
    let framed = prefixed(&long);
    assert_eq!(&framed[..4], &[0x70, 0x11, 0x01, 0x00]);
    assert_eq!(read_prefixed(&framed, 0).unwrap(), long);
    assert_eq!(prefixed(&vec![]), vec![0, 0, 0, 0]);
}

#[test]
fn status_errors_fall_back_to_a_generic_detail() {
    assert_eq!(
        status_error("get_schema", 3, None).message(),
        "get_schema failed with code 3: unknown error"
    );
    assert_eq!(
        status_error("encode_input_fn", i32::MIN, Some("boom".to_string())).message(),
        "encode_input_fn failed with code -2147483648: boom"
    );
    assert_eq!(BridgeError::ReadOutOfBounds.message(), "WASM output buffer out of bounds");
    assert_eq!(
        BridgeError::InvalidUtf8 { detail: "invalid utf-8 sequence".to_string() }.message(),
        "schema output is not valid UTF-8: invalid utf-8 sequence"
    );
    assert_eq!(
        BridgeError::MissingExport { name: "init".to_string() }.message(),
        "WASM export 'init' not found"
    );
    assert_eq!(BridgeError::Growth { detail: "no room".to_string() }.message(), "no room");
    assert_eq!(
        BridgeError::TooLarge.message(),
        "WASM input does not fit the module's address space"
    );
}

#[test]
fn a_bridge_never_goes_back() {
    let (instantiated, initialized, request, dropped) = (
        BridgeEvent::Instantiated,
        BridgeEvent::Initialized,
        BridgeEvent::Request,
        BridgeEvent::Dropped,
    );
    let (unloaded, loaded, ready, disposed) =
        (BridgeState::Unloaded, BridgeState::Loaded, BridgeState::Ready, BridgeState::Disposed);
    assert_eq!(unloaded.after(instantiated), Some(loaded));
    assert_eq!(loaded.after(initialized), Some(ready));
    assert_eq!(ready.after(request), Some(ready));
    assert_eq!(ready.after(dropped), Some(disposed));
    assert_eq!(loaded.after(dropped), Some(disposed));
    assert_eq!(ready.after(instantiated), None);
    assert_eq!(ready.after(initialized), None);
    assert_eq!(unloaded.after(request), None);
    assert_eq!(loaded.after(request), None);
    for event in [instantiated, initialized, request, dropped] {
        assert_eq!(disposed.after(event), None);
    }
}

#[test]
fn texts_are_read_from_prefixed_buffers() {
    let mut data = vec![0, 0];
    data.extend(prefixed(&"caf\u{e9}".as_bytes().to_vec()));
    data.extend([b'x', b'y']);
    assert_eq!(text_at(&data, 2).unwrap(), "caf\u{e9}");
    assert_eq!(text_at(&vec![0, 0, 0, 0], 0).unwrap(), "");
    assert!(matches!(text_at(&data, data.len() - 3), Err(BridgeError::ReadOutOfBounds)));
    assert!(matches!(text_at(&vec![9, 0, 0, 0, b'a'], 0), Err(BridgeError::OutputExceedsMemory)));
    match text_at(&vec![2, 0, 0, 0, 0xc3, 0x28], 0) {
        Err(e @ BridgeError::InvalidUtf8 { .. }) => assert_eq!(
            e.message(),
            "schema output is not valid UTF-8: invalid utf-8 sequence of 1 bytes from index 0"
        ),
        other => panic!("expected an encoding failure, found {other:?}"),
    }
    assert!(matches!(
        text_at(&vec![1, 0, 0, 0, 0xff, b'a'], 0),
        Err(BridgeError::InvalidUtf8 { .. })
    ));
}

#[test]
fn engine_outcomes_become_bridge_results() {
    assert_eq!(module_outcome::<u8>(Ok(3)).unwrap(), 3);
    let err = module_outcome::<u8>(Err(wasmtime::Error::msg("no such module"))).unwrap_err();
    assert!(matches!(err, BridgeError::Module { .. }));
    assert_eq!(err.message(), "no such module");
}

#[test]
fn schema_text_is_what_the_output_region_holds() {
    let mut driver = load();
    let schema = driver.get_schema_json().expect("the schema is served");
    assert_eq!(driver.read_prefixed_text(65_536).unwrap(), schema);
    // An offset at the end of the memory leaves no room for a prefix.
    let end = 5 * 65_536;
    assert!(matches!(driver.read_prefixed_text(end - 3), Err(BridgeError::ReadOutOfBounds)));
}

#[test]
fn served_report_reads_the_schema_of_a_loaded_driver() {
    let mut driver = load();
    let report = verify::served_report(&mut driver, "ab12".to_string()).expect("a report");
    assert_eq!(report.contract_blake3, "ab12");
    assert_eq!(report.schema_contract, "Counter");
    assert_eq!(report.schema_functions, 1);
    assert_eq!(driver.read_prefixed_text(65_536).unwrap(), SCHEMA);
    let mut failing = DataDriverWasm::load(&driver_module(true, 3)).unwrap();
    assert_eq!(
        verify::served_report(&mut failing, String::new()).unwrap_err().message(),
        format!("get_schema failed with code 3: {FAILURE}")
    );
}

#[test]
fn modules_are_judged_on_a_given_engine() {
    let engine = wasmtime::Engine::new(&engine_config()).expect("an engine");
    assert!(DataDriverWasm::validate_module_on(&engine, &driver_module(true, 0)).is_ok());
    assert!(DataDriverWasm::validate_module_on(&engine, &driver_module(false, 0)).is_ok());
    assert!(matches!(
        DataDriverWasm::validate_module_on(&engine, &vec![0x00, 0x61, 0x73]),
        Err(BridgeError::Module { .. })
    ));
    assert!(matches!(
        DataDriverWasm::validate_module_on(&engine, &vec![]),
        Err(BridgeError::Module { .. })
    ));
    let mut driver = DataDriverWasm::load_on(&engine, &driver_module(true, 0)).expect("it loads");
    assert_eq!(driver.page_count(), 1);
    assert!(driver.growth_calls().is_empty());
    assert_eq!(driver.get_schema_json().unwrap(), SCHEMA);
    // What the engine does not accept fails as a malformed module.
    assert!(matches!(
        DataDriverWasm::load_on(&engine, &vec![1, 2, 3]),
        Err(BridgeError::Module { .. })
    ));
    // The two exports that a module must have are named in the failure.
    match DataDriverWasm::load_on(&engine, &driver_module(false, 0)) {
        Err(BridgeError::MissingExport { name }) => assert_eq!(name, "memory"),
        _ => panic!("a module without memory must not load"),
    }
}

#[test]
fn replies_follow_the_status_of_the_entry_point() {
    let mut driver = load();
    let schema = driver.get_schema_json().expect("the schema is served");
    let log = driver.growth_calls().clone();
    // With the status 0 the text in the schema region is the reply.
    assert_eq!(driver.schema_reply(0).unwrap(), schema);
    assert_eq!(driver.growth_calls(), &log);
    // Any other status is a failure with that status.
    match driver.schema_reply(5) {
        Err(BridgeError::Status { entry, code, detail }) => {
            assert_eq!(entry, "get_schema");
            assert_eq!(code, 5);
            assert_eq!(detail, FAILURE);
        }
        other => panic!("expected a status, found {other:?}"),
    }
    let encoded = driver.encode_input("set_count", "42").unwrap();
    let layout = input_layout("set_count".len(), "42".len()).unwrap();
    assert_eq!(driver.encode_reply(0, layout.out_offset).unwrap(), encoded);
    assert_eq!(
        driver.encode_reply(-1, layout.out_offset).unwrap_err().message(),
        format!("encode_input_fn failed with code -1: {FAILURE}")
    );
    let end = driver.page_count() as usize * 65_536;
    assert!(matches!(driver.encode_reply(0, end - 2), Err(BridgeError::ReadOutOfBounds)));
}
