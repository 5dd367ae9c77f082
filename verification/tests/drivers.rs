use wasm_bench::bench::{run_allocator_probe, run_embedded_add, run_file_add};
use wasm_bench::driver::{Driver, Failure, HostOptions, Stage};
use wasm_bench::guest::{GuestFunction, ValueKind};
use wasm_bench::timing::ClockReference;

const ADDER: &str = r#"
    (module
      (func (export "add") (param i32 i32) (result i32)
        local.get 0
        local.get 1
        i32.add))
"#;

const COUNTER: &str = r#"
    (module
      (global $calls (mut i32) (i32.const 0))
      (func (export "add") (param i32 i32) (result i32)
        global.get $calls
        global.get $calls
        i32.const 1
        i32.add
        global.set $calls))
"#;

const CLOCK_READER: &str = r#"
    (module
      (import "time" "now" (func $now (result i64)))
      (func (export "add") (param i32 i32) (result i32)
        call $now
        i32.wrap_i64))
"#;

const OTHER_IMPORT: &str = r#"
    (module
      (import "env" "tick" (func $tick))
      (func (export "add") (param i32 i32) (result i32)
        local.get 0
        local.get 1
        i32.add))
"#;

const WIDE_ADDER: &str = r#"
    (module
      (func (export "add") (param i64 i64) (result i64)
        local.get 0
        local.get 1
        i64.add))
"#;

const TRAPPING_ADDER: &str = r#"
    (module
      (func (export "add") (param i32 i32) (result i32)
        local.get 0
        i32.const 3
        i32.eq
        if
          unreachable
        end
        local.get 0
        local.get 1
        i32.add))
"#;

const FAILING_START: &str = r#"
    (module
      (func $boom unreachable)
      (start $boom)
      (func (export "add") (param i32 i32) (result i32)
        local.get 0))
"#;

const ALLOCATOR: &str = r#"
    (module
      (import "time" "now" (func $now (result i64)))
      (memory (export "memory") 1)
      (global $next (mut i32) (i32.const 16))
      (func (export "allocate") (param $size i32) (result i32)
        (local $at i32)
        global.get $next
        local.set $at
        global.get $next
        local.get $size
        i32.add
        global.set $next
        local.get $at)
      (func (export "deallocate") (param $at i32)
        local.get $at
        global.set $next))
"#;

const GROWING_ALLOCATOR: &str = r#"
    (module
      (memory (export "memory") 1)
      (func (export "allocate") (param $size i32) (result i32)
        i32.const 0)
      (func (export "deallocate") (param $at i32)
        (if (i32.lt_u (memory.size) (i32.const 16))
          (then (drop (memory.grow (i32.const 15)))))))
"#;

const ALLOCATOR_WITHOUT_MEMORY: &str = r#"
    (module
      (func (export "allocate") (param i32) (result i32)
        i32.const 0)
      (func (export "deallocate") (param i32)))
"#;

const ALLOCATOR_WITHOUT_DEALLOCATE: &str = r#"
    (module
      (memory (export "memory") 1)
      (func (export "allocate") (param i32) (result i32)
        i32.const 0))
"#;

const ALLOCATOR_RETURNING_NOTHING: &str = r#"
    (module
      (memory (export "memory") 1)
      (func (export "allocate") (param i32))
      (func (export "deallocate") (param i32)))
"#;

const ALLOCATOR_TRAPPING_ON_RELEASE: &str = r#"
    (module
      (memory (export "memory") 1)
      (global $rounds (mut i32) (i32.const 0))
      (func (export "allocate") (param i32) (result i32)
        i32.const 32)
      (func (export "deallocate") (param i32)
        global.get $rounds
        i32.const 1
        i32.add
        global.set $rounds
        (if (i32.eq (global.get $rounds) (i32.const 5))
          (then unreachable))))
"#;

fn from_start() -> HostOptions {
    HostOptions::standard()
}

fn each_reading() -> HostOptions {
    HostOptions { clock: ClockReference::EachReading, memory_reservation: None }
}

fn small_memory() -> HostOptions {
    HostOptions { clock: ClockReference::DriverStart, memory_reservation: Some(1 << 24) }
}

fn binary(text: &str) -> Vec<u8> {
    wat::parse_str(text).unwrap()
}

fn is_time_line(line: &str) -> bool {
    match line.strip_prefix("Time: ") {
        Some(digits) => !digits.is_empty() && digits.chars().all(|c| c.is_ascii_digit()),
        None => false,
    }
}

#[test]
fn file_add_reports_the_sum_of_the_last_call() {
    let run = run_file_add(&binary(ADDER), from_start());
    assert_eq!(run.failure, None);
    let lines = run.lines(Driver::FileAdd);
    assert_eq!(lines.last().unwrap(), "Result: 18");
}

#[test]
fn file_add_writes_ten_timings_and_one_result() {
    let run = run_file_add(&binary(ADDER), from_start());
    let lines = run.lines(Driver::FileAdd);
    assert_eq!(lines.len(), 11);
    for line in &lines[..10] {
        assert!(line.starts_with("Time taken: "), "{}", line);
    }
    assert!(lines[10].starts_with("Result: "));
}

#[test]
fn accepted_guest_shows_the_required_export() {
    let run = run_file_add(&binary(ADDER), from_start());
    let found = run.exports.add.unwrap();
    assert_eq!(found.params, vec![ValueKind::I32, ValueKind::I32]);
    assert_eq!(found.results, vec![ValueKind::I32]);
    assert!(run.exports.allocate.is_none());
    let wide = run_file_add(&binary(WIDE_ADDER), from_start());
    let found = wide.exports.add.unwrap();
    assert_eq!(found.params, vec![ValueKind::I64, ValueKind::I64]);
    assert_eq!(found.results, vec![ValueKind::I64]);
    let missing = run_embedded_add(&binary("(module)"), from_start());
    assert!(missing.exports.add.is_none());
}

#[test]
fn accepted_allocator_shows_the_required_exports() {
    let run = run_allocator_probe(&binary(ALLOCATOR), false, small_memory());
    assert_eq!(run.failure, None);
    assert!(GuestFunction::Allocate.matches(&run.exports.allocate.unwrap()));
    assert!(GuestFunction::Deallocate.matches(&run.exports.deallocate.unwrap()));
    assert!(run.exports.memory);
    assert!(run.exports.add.is_none());
    let bare = run_allocator_probe(&binary(ALLOCATOR_WITHOUT_MEMORY), false, from_start());
    assert!(bare.exports.allocate.is_some());
    assert!(bare.exports.deallocate.is_some());
    assert!(!bare.exports.memory);
}

#[test]
fn signature_kinds_are_told_apart() {
    let mixed = binary(
        r#"(module (func (export "add") (param i32 i64 f32 f64 v128 funcref) (result f64 i32)
             f64.const 0 i32.const 0))"#,
    );
    let run = run_file_add(&mixed, from_start());
    assert_eq!(run.failure, Some(Failure::WrongSignature(GuestFunction::Add)));
    let found = run.exports.add.unwrap();
    assert_eq!(
        found.params,
        vec![
            ValueKind::I32,
            ValueKind::I64,
            ValueKind::F32,
            ValueKind::F64,
            ValueKind::V128,
            ValueKind::Ref,
        ]
    );
    assert_eq!(found.results, vec![ValueKind::F64, ValueKind::I32]);
}

#[test]
fn file_add_hands_over_each_round_twice() {
    let run = run_file_add(&binary(ADDER), from_start());
    assert_eq!(run.samples.len(), 10);
    for (round, sample) in run.samples.iter().enumerate() {
        assert_eq!(sample.left, round as i32);
        assert_eq!(sample.right, round as i32);
        assert_eq!(sample.returned, Some(2 * round as i32));
    }
}

#[test]
fn file_add_calls_in_order() {
    let run = run_file_add(&binary(COUNTER), from_start());
    assert_eq!(run.failure, None);
    let ordinals: Vec<Option<i32>> = run.samples.iter().map(|sample| sample.returned).collect();
    let expected: Vec<Option<i32>> = (0..10).map(Some).collect();
    assert_eq!(ordinals, expected);
    assert_eq!(run.lines(Driver::FileAdd).last().unwrap(), "Result: 9");
}

#[test]
fn embedded_add_calls_in_order() {
    let run = run_embedded_add(&binary(COUNTER), from_start());
    assert_eq!(run.failure, None);
    let ordinals: Vec<Option<i32>> = run.samples.iter().map(|sample| sample.returned).collect();
    let expected: Vec<Option<i32>> = (0..100).map(Some).collect();
    assert_eq!(ordinals, expected);
}

#[test]
fn file_add_without_the_export_fails_at_startup() {
    let run = run_file_add(&binary("(module)"), from_start());
    assert_eq!(run.failure, Some(Failure::MissingFunction(GuestFunction::Add)));
    assert!(run.samples.is_empty());
    let lines = run.lines(Driver::FileAdd);
    assert!(lines.iter().all(|line| !line.starts_with("Result:")));
    assert!(lines.is_empty());
}

#[test]
fn file_add_with_another_signature_fails_at_startup() {
    let run = run_file_add(&binary(WIDE_ADDER), from_start());
    assert_eq!(run.failure, Some(Failure::WrongSignature(GuestFunction::Add)));
    assert!(run.samples.is_empty());
    assert!(run.lines(Driver::FileAdd).is_empty());
}

#[test]
fn file_add_refuses_a_module_with_imports() {
    let run = run_file_add(&binary(CLOCK_READER), from_start());
    assert_eq!(run.failure, Some(Failure::Instantiation));
    assert!(run.samples.is_empty());
}

#[test]
fn file_add_stops_at_a_trap() {
    let run = run_file_add(&binary(TRAPPING_ADDER), from_start());
    assert_eq!(run.failure, Some(Failure::Invocation(GuestFunction::Add)));
    assert_eq!(run.samples.len(), 3);
    let lines = run.lines(Driver::FileAdd);
    assert_eq!(lines.len(), 3);
    assert!(lines.iter().all(|line| line.starts_with("Time taken: ")));
}

#[test]
fn failing_start_function_is_an_instantiation_failure() {
    let run = run_file_add(&binary(FAILING_START), from_start());
    assert_eq!(run.failure, Some(Failure::Instantiation));
    let embedded = run_embedded_add(&binary(FAILING_START), from_start());
    assert_eq!(embedded.failure, Some(Failure::Instantiation));
}

#[test]
fn embedded_add_writes_a_hundred_time_lines() {
    let run = run_embedded_add(&binary(ADDER), from_start());
    assert_eq!(run.failure, None);
    let lines = run.lines(Driver::EmbeddedAdd);
    assert_eq!(lines.len(), 100);
    for line in &lines {
        assert!(is_time_line(line), "{}", line);
    }
}

#[test]
fn embedded_add_runs_a_binary_written_by_hand() {
    let module: [u8; 41] = [
        0x00, 0x61, 0x73, 0x6d, 0x01, 0x00, 0x00, 0x00, 0x01, 0x07, 0x01, 0x60, 0x02, 0x7f, 0x7f,
        0x01, 0x7f, 0x03, 0x02, 0x01, 0x00, 0x07, 0x07, 0x01, 0x03, 0x61, 0x64, 0x64, 0x00, 0x00,
        0x0a, 0x09, 0x01, 0x07, 0x00, 0x20, 0x00, 0x20, 0x01, 0x6a, 0x0b,
    ];
    let run = run_embedded_add(&module, from_start());
    assert_eq!(run.failure, None);
    assert_eq!(run.samples.len(), 100);
    assert!(run.samples.iter().all(|sample| sample.returned == Some(3)));
    assert_eq!(binary(ADDER), module.to_vec());
}

#[test]
fn embedded_add_calls_one_plus_two_every_time() {
    let run = run_embedded_add(&binary(ADDER), each_reading());
    assert_eq!(run.samples.len(), 100);
    for sample in &run.samples {
        assert_eq!((sample.left, sample.right), (1, 2));
        assert_eq!(sample.returned, Some(3));
    }
}

#[test]
fn embedded_add_rejects_malformed_bytes() {
    let noise: Vec<u8> = vec![0x13, 0x37, 0xc0, 0xff, 0xee, 0x00, 0x61, 0x73, 0x6d, 0x99];
    let run = run_embedded_add(&noise, from_start());
    assert_eq!(run.failure, Some(Failure::ModuleDecode));
    assert!(run.samples.is_empty());
    assert!(run.lines(Driver::EmbeddedAdd).is_empty());
    let empty = run_embedded_add(&[], from_start());
    assert_eq!(empty.failure, Some(Failure::ModuleDecode));
}

#[test]
fn embedded_add_does_not_take_text() {
    let run = run_embedded_add(ADDER.as_bytes(), from_start());
    assert_eq!(run.failure, Some(Failure::ModuleDecode));
}

#[test]
fn embedded_add_offers_the_host_clock() {
    let run = run_embedded_add(&binary(CLOCK_READER), from_start());
    assert_eq!(run.failure, None);
    let lines = run.lines(Driver::EmbeddedAdd);
    assert_eq!(lines.len(), 100);
    for line in &lines {
        assert!(is_time_line(line), "{}", line);
    }
    let mut before: i32 = 0;
    for sample in &run.samples {
        let reading = sample.returned.unwrap();
        assert!(reading >= before);
        before = reading;
    }
}

#[test]
fn host_clock_counted_from_each_reading_stays_near_zero() {
    let run = run_embedded_add(&binary(CLOCK_READER), each_reading());
    assert_eq!(run.failure, None);
    for sample in &run.samples {
        let reading = sample.returned.unwrap();
        assert!(reading >= 0 && reading < 1_000_000, "{}", reading);
    }
}

#[test]
fn embedded_add_refuses_an_unknown_import() {
    let run = run_embedded_add(&binary(OTHER_IMPORT), from_start());
    assert_eq!(run.failure, Some(Failure::Instantiation));
    assert!(run.samples.is_empty());
}

#[test]
fn embedded_add_without_the_export_fails_at_startup() {
    let run = run_embedded_add(&binary("(module)"), from_start());
    assert_eq!(run.failure, Some(Failure::MissingFunction(GuestFunction::Add)));
    assert!(run.lines(Driver::EmbeddedAdd).is_empty());
}

#[test]
fn allocator_probe_sets_up_and_writes_nothing() {
    let run = run_allocator_probe(&binary(ALLOCATOR), false, small_memory());
    assert_eq!(run.failure, None);
    assert!(run.samples.is_empty());
    assert!(run.lines().is_empty());
}

#[test]
fn allocator_probe_times_a_thousand_rounds() {
    let run = run_allocator_probe(&binary(ALLOCATOR), true, small_memory());
    assert_eq!(run.failure, None);
    assert_eq!(run.samples.len(), 1000);
    let lines = run.lines();
    assert_eq!(lines.len(), 1000);
    for (line, sample) in lines.iter().zip(run.samples.iter()) {
        assert_eq!(sample.size, 128);
        assert_eq!(sample.pointer, 16);
        assert_eq!(sample.memory_bytes, 65536);
        assert_eq!(*line, format!("Data: 64 KB {}", sample.elapsed.as_nanos()));
    }
}

#[test]
fn allocator_probe_reads_the_memory_size_after_each_round() {
    let run = run_allocator_probe(&binary(GROWING_ALLOCATOR), true, small_memory());
    assert_eq!(run.failure, None);
    assert_eq!(run.samples.len(), 1000);
    for sample in &run.samples {
        assert_eq!(sample.memory_bytes, 16 * 65536);
    }
    assert!(run.lines()[0].starts_with("Data: 1 MB "));
}

#[test]
fn allocator_probe_needs_the_memory() {
    let run = run_allocator_probe(
        &binary(ALLOCATOR_WITHOUT_MEMORY),
        false,
        from_start(),
    );
    assert_eq!(run.failure, Some(Failure::MissingMemory));
    let timed = run_allocator_probe(
        &binary(ALLOCATOR_WITHOUT_MEMORY),
        true,
        from_start(),
    );
    assert_eq!(timed.failure, Some(Failure::MissingMemory));
    assert!(timed.samples.is_empty());
}

#[test]
fn allocator_probe_needs_both_functions() {
    let run = run_allocator_probe(&binary(ADDER), false, from_start());
    assert_eq!(run.failure, Some(Failure::MissingFunction(GuestFunction::Allocate)));
    let partial = run_allocator_probe(
        &binary(ALLOCATOR_WITHOUT_DEALLOCATE),
        false,
        small_memory(),
    );
    assert_eq!(partial.failure, Some(Failure::MissingFunction(GuestFunction::Deallocate)));
}

#[test]
fn allocator_probe_checks_signatures_without_calling() {
    let run = run_allocator_probe(
        &binary(ALLOCATOR_RETURNING_NOTHING),
        false,
        small_memory(),
    );
    assert_eq!(run.failure, Some(Failure::WrongSignature(GuestFunction::Allocate)));
}

#[test]
fn allocator_probe_stops_at_a_trap() {
    let run = run_allocator_probe(
        &binary(ALLOCATOR_TRAPPING_ON_RELEASE),
        true,
        small_memory(),
    );
    assert_eq!(run.failure, Some(Failure::Invocation(GuestFunction::Deallocate)));
    assert_eq!(run.samples.len(), 4);
    assert_eq!(run.lines().len(), 4);
}

#[test]
fn allocator_probe_rejects_malformed_bytes() {
    let run = run_allocator_probe(&[0, 1, 2, 3], true, from_start());
    assert_eq!(run.failure, Some(Failure::ModuleDecode));
    assert!(run.samples.is_empty());
}

#[test]
fn failures_name_the_stage_they_stopped() {
    let missing = run_file_add(&binary("(module)"), from_start()).failure.unwrap();
    assert_eq!(missing.stage_in(Driver::FileAdd), Stage::InstanceReady);
    assert!(missing.is_startup());
    let trapped = run_file_add(&binary(TRAPPING_ADDER), from_start()).failure.unwrap();
    assert_eq!(trapped.stage_in(Driver::FileAdd), Stage::Running);
    assert!(!trapped.is_startup());
}
