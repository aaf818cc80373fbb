use wasm_decoder::parser::{ParseError, Parser, Type};
use wasm_decoder::validator::Validator;

fn header() -> Vec<u8> {
    vec![0x00, 0x61, 0x73, 0x6d, 0x01, 0x00, 0x00, 0x00]
}

fn section(id: u8, payload: &[u8]) -> Vec<u8> {
    let mut out = vec![id];
    assert!(payload.len() < 0x80);
    out.push(payload.len() as u8);
    out.extend_from_slice(payload);
    out
}

fn module(sections: &[Vec<u8>]) -> Vec<u8> {
    let mut out = header();
    for s in sections {
        out.extend_from_slice(s);
    }
    out
}

#[test]
fn minimal_module_decodes_empty_and_validates() {
    let mut p = Parser::new(header());
    let res = p.parse().unwrap();
    assert!(res.namings.is_none());
    assert!(res.custom_sections.is_empty());
    assert!(res.function_types.is_none());
    assert!(res.import_entires.is_none());
    assert!(res.function_ids.is_none());
    assert!(res.table_entries.is_none());
    assert!(res.memory_types.is_none());
    assert!(res.global_variables.is_none());
    assert!(res.export_entires.is_none());
    assert!(res.start_function.is_none());
    assert!(res.element_segments.is_none());
    assert!(res.function_bodies.is_none());
    assert!(res.data_entries.is_none());
    let v = Validator::new(res);
    assert!(v.validate());
}

#[test]
fn wrong_magic_is_invalid_preamble() {
    let mut p = Parser::new(vec![0x00, 0x61, 0x73, 0x6e, 0x01, 0x00, 0x00, 0x00]);
    assert_eq!(p.parse().unwrap_err(), ParseError::InvalidPreamble);
}

#[test]
fn wrong_version_is_unsupported() {
    let mut p = Parser::new(vec![0x00, 0x61, 0x73, 0x6d, 0x02, 0x00, 0x00, 0x00]);
    assert_eq!(p.parse().unwrap_err(), ParseError::UnsupportedVersion);
}

#[test]
fn truncated_preamble_is_eof() {
    let mut p = Parser::new(vec![0x00, 0x61, 0x73]);
    assert_eq!(p.parse().unwrap_err(), ParseError::UnexpectedEof);
    let mut p = Parser::new(vec![0x00, 0x61, 0x73, 0x6d, 0x01]);
    assert_eq!(p.parse().unwrap_err(), ParseError::UnexpectedEof);
}

#[test]
fn unknown_section_id_is_rejected() {
    let data = module(&[section(0x0C, &[])]);
    let mut p = Parser::new(data);
    assert_eq!(p.parse().unwrap_err(), ParseError::UnknownSectionId);
    let data = module(&[section(0x30, &[])]);
    let mut p = Parser::new(data);
    assert_eq!(p.parse().unwrap_err(), ParseError::UnknownSectionId);
}

#[test]
fn type_and_function_sections_keep_positional_correspondence() {
    // one signature func(i32, i32) -> i32, and one function referring to it
    let type_payload: &[u8] = &[0x01, 0x60, 0x02, 0x7f, 0x7f, 0x01, 0x7f];
    let func_payload: &[u8] = &[0x01, 0x00];
    let data = module(&[section(0x01, type_payload), section(0x03, func_payload)]);
    let mut p = Parser::new(data);
    let res = p.parse().unwrap();
    let types = res.function_types.as_ref().unwrap();
    assert_eq!(types.len(), 1);
    assert_eq!(types[0].form, Type::func);
    assert_eq!(types[0].param_types, vec![Type::I32, Type::I32]);
    assert_eq!(types[0].return_type, Some(Type::I32));
    let ids = res.function_ids.as_ref().unwrap();
    assert_eq!(ids.len(), 1);
    assert_eq!(ids[0].0, 0);
    let v = Validator::new(res);
    assert!(v.validate());
}

#[test]
fn section_length_mismatch_is_fatal() {
    // the type section declares 8 payload bytes but its decoder consumes 7
    let mut payload = vec![0x01u8, 0x60, 0x02, 0x7f, 0x7f, 0x01, 0x7f, 0x00];
    let mut data = header();
    data.push(0x01);
    data.push(payload.len() as u8);
    data.append(&mut payload);
    let mut p = Parser::new(data);
    assert_eq!(p.parse().unwrap_err(), ParseError::SectionLengthMismatch);
}

#[test]
fn invalid_value_type_tag_is_rejected() {
    // a type section whose parameter list holds the tag 0x6f
    let payload: &[u8] = &[0x01, 0x60, 0x01, 0x6f, 0x00];
    let data = module(&[section(0x01, payload)]);
    let mut p = Parser::new(data);
    assert_eq!(p.parse().unwrap_err(), ParseError::InvalidTypeTag);
}

#[test]
fn start_section_records_the_function_index() {
    let data = module(&[section(0x08, &[0x05])]);
    let mut p = Parser::new(data);
    let res = p.parse().unwrap();
    assert_eq!(res.start_function.unwrap().0, 5);
}

#[test]
fn table_and_memory_sections_decode_limits() {
    // one table: anyfunc, flags=1, initial=1, maximum=2
    let table_payload: &[u8] = &[0x01, 0x70, 0x01, 0x01, 0x02];
    // one memory: flags=0, initial=16
    let memory_payload: &[u8] = &[0x01, 0x00, 0x10];
    let data = module(&[section(0x04, table_payload), section(0x05, memory_payload)]);
    let mut p = Parser::new(data);
    let res = p.parse().unwrap();
    let tables = res.table_entries.as_ref().unwrap();
    assert_eq!(tables.len(), 1);
    assert_eq!(tables[0].typ, Type::anyfunc);
    assert!(tables[0].limits.flags);
    assert_eq!(tables[0].limits.initial, 1);
    assert_eq!(tables[0].limits.maximum, Some(2));
    let memories = res.memory_types.as_ref().unwrap();
    assert_eq!(memories.len(), 1);
    assert!(!memories[0].limits.flags);
    assert_eq!(memories[0].limits.initial, 16);
    assert_eq!(memories[0].limits.maximum, None);
    let v = Validator::new(res);
    assert!(v.validate());
}

#[test]
fn module_with_shrinking_limits_fails_validation() {
    // one memory: flags=1, initial=10, maximum=5
    let memory_payload: &[u8] = &[0x01, 0x01, 0x0a, 0x05];
    let data = module(&[section(0x05, memory_payload)]);
    let mut p = Parser::new(data);
    let res = p.parse().unwrap();
    let v = Validator::new(res);
    assert!(!v.validate());
}

#[test]
fn trailing_garbage_after_sections_is_a_decode_error() {
    let mut data = header();
    data.push(0x01); // a section id with nothing after it
    let mut p = Parser::new(data);
    assert_eq!(p.parse().unwrap_err(), ParseError::UnexpectedEof);
}
