use wasm_decoder::parser::memory_section::MemoryType;
use wasm_decoder::parser::table_section::TableEntry;
use wasm_decoder::parser::{ParseResult, ResizableLimits, Type};
use wasm_decoder::validator::{Validate, Validator};

#[test]
fn limits_with_maximum_below_initial_are_invalid() {
    let l = ResizableLimits { flags: true, initial: 10, maximum: Some(5) };
    assert!(!l.is_valid());
}

#[test]
fn limits_with_maximum_above_initial_are_valid() {
    let l = ResizableLimits { flags: true, initial: 5, maximum: Some(10) };
    assert!(l.is_valid());
}

#[test]
fn limits_without_maximum_are_valid() {
    let l = ResizableLimits { flags: false, initial: 100, maximum: None };
    assert!(l.is_valid());
}

#[test]
fn limits_with_equal_initial_and_maximum_are_valid() {
    let l = ResizableLimits { flags: true, initial: 7, maximum: Some(7) };
    assert!(l.is_valid());
}

#[test]
fn validator_rejects_one_bad_entry_among_good_ones() {
    let good = ResizableLimits { flags: true, initial: 1, maximum: Some(2) };
    let bad = ResizableLimits { flags: true, initial: 3, maximum: Some(2) };
    let mut res = ParseResult::new();
    res.memory_types = Some(vec![MemoryType { limits: good }, MemoryType { limits: bad }]);
    let v = Validator::new(res);
    assert!(!v.validate());
}

#[test]
fn validator_accepts_tables_memories_and_globals_in_range() {
    let limits = ResizableLimits { flags: true, initial: 1, maximum: Some(4) };
    let mut res = ParseResult::new();
    res.memory_types = Some(vec![MemoryType { limits }]);
    res.table_entries = Some(vec![TableEntry { typ: Type::anyfunc, limits }]);
    let v = Validator::new(res);
    assert!(v.validate());
}

#[test]
fn validator_rejects_bad_table_limits() {
    let bad = ResizableLimits { flags: true, initial: 9, maximum: Some(1) };
    let mut res = ParseResult::new();
    res.table_entries = Some(vec![TableEntry { typ: Type::anyfunc, limits: bad }]);
    let v = Validator::new(res);
    assert!(!v.validate());
}

#[test]
fn empty_result_validates() {
    let res = ParseResult::new();
    let v = Validator::new(res);
    assert!(v.validate());
}
