use wasm_decoder::parser::import_export_section::{ExternalKind, ExternalKindType};
use wasm_decoder::parser::opcode::{opcode_from_byte, Opcode};
use wasm_decoder::parser::{ParseError, Parser, Type};

fn header() -> Vec<u8> {
    vec![0x00, 0x61, 0x73, 0x6d, 0x01, 0x00, 0x00, 0x00]
}

fn section(id: u8, payload: &[u8]) -> Vec<u8> {
    let mut out = vec![id];
    assert!(payload.len() < 0x80);
    out.push(payload.len() as u8);
    out.extend_from_slice(payload);
    out
}

fn module(sections: &[Vec<u8>]) -> Vec<u8> {
    let mut out = header();
    for s in sections {
        out.extend_from_slice(s);
    }
    out
}

#[test]
fn global_section_decodes_type_and_initializer() {
    let payload: &[u8] = &[0x01, 0x7f, 0x00, 0x41, 0x0b];
    let data = module(&[section(0x06, payload)]);
    let mut p = Parser::new(data);
    let res = p.parse().unwrap();
    let globals = res.global_variables.unwrap();
    assert_eq!(globals.len(), 1);
    assert_eq!(globals[0].typ.content_type, Type::I32);
    assert!(!globals[0].typ.mutability);
    assert_eq!(globals[0].init.0.opcode, Opcode::i32_const);
}

#[test]
fn import_section_decodes_names_and_kind() {
    let payload: &[u8] = &[0x01, 0x01, 0x6d, 0x01, 0x67, 0x03, 0x7f, 0x01];
    let data = module(&[section(0x02, payload)]);
    let mut p = Parser::new(data);
    let res = p.parse().unwrap();
    let imports = res.import_entires.unwrap();
    assert_eq!(imports.len(), 1);
    assert_eq!(imports[0].module, "m");
    assert_eq!(imports[0].field, "g");
    assert_eq!(imports[0].kind, ExternalKind::Global);
    assert_eq!(imports[0].typ, ExternalKindType::Global(Type::I32, true));
}

#[test]
fn import_with_unknown_kind_byte_is_rejected() {
    let payload: &[u8] = &[0x01, 0x01, 0x6d, 0x01, 0x67, 0x04, 0x7f, 0x01];
    let data = module(&[section(0x02, payload)]);
    let mut p = Parser::new(data);
    assert_eq!(p.parse().unwrap_err(), ParseError::InvalidTypeTag);
}

#[test]
fn export_section_decodes_field_kind_and_index() {
    let payload: &[u8] = &[0x01, 0x01, 0x66, 0x00, 0x02];
    let data = module(&[section(0x07, payload)]);
    let mut p = Parser::new(data);
    let res = p.parse().unwrap();
    let exports = res.export_entires.unwrap();
    assert_eq!(exports.len(), 1);
    assert_eq!(exports[0].field, "f");
    assert_eq!(exports[0].kind, ExternalKind::Func);
    assert_eq!(exports[0].index, 2);
}

#[test]
fn element_section_decodes_offset_and_function_indices() {
    let payload: &[u8] = &[0x01, 0x00, 0x41, 0x0b, 0x02, 0x03, 0x07];
    let data = module(&[section(0x09, payload)]);
    let mut p = Parser::new(data);
    let res = p.parse().unwrap();
    let elements = res.element_segments.unwrap();
    assert_eq!(elements.len(), 1);
    assert_eq!(elements[0].index, 0);
    assert_eq!(elements[0].elems.len(), 2);
    assert_eq!(elements[0].elems[0].0, 3);
    assert_eq!(elements[0].elems[1].0, 7);
}

#[test]
fn code_section_decodes_locals_and_instructions() {
    let payload: &[u8] = &[0x01, 0x05, 0x01, 0x02, 0x7f, 0x01, 0x0b];
    let data = module(&[section(0x0A, payload)]);
    let mut p = Parser::new(data);
    let res = p.parse().unwrap();
    let bodies = res.function_bodies.unwrap();
    assert_eq!(bodies.len(), 1);
    assert_eq!(bodies[0].locals.len(), 1);
    assert_eq!(bodies[0].locals[0].count, 2);
    assert_eq!(bodies[0].locals[0].typ, Type::I32);
    assert_eq!(bodies[0].code.len(), 1);
    assert_eq!(bodies[0].code[0].opcode, Opcode::nop);
}

#[test]
fn code_body_without_end_terminator_is_rejected() {
    let payload: &[u8] = &[0x01, 0x05, 0x01, 0x02, 0x7f, 0x01, 0x00];
    let data = module(&[section(0x0A, payload)]);
    let mut p = Parser::new(data);
    assert_eq!(p.parse().unwrap_err(), ParseError::SectionLengthMismatch);
}

#[test]
fn code_body_size_smaller_than_locals_is_rejected() {
    // the body declares 2 bytes but its locals list alone takes 3
    let payload: &[u8] = &[0x01, 0x02, 0x01, 0x02, 0x7f, 0x01, 0x0b];
    let data = module(&[section(0x0A, payload)]);
    let mut p = Parser::new(data);
    assert_eq!(p.parse().unwrap_err(), ParseError::SectionLengthMismatch);
}

#[test]
fn data_section_decodes_raw_payload() {
    let payload: &[u8] = &[0x01, 0x00, 0x41, 0x0b, 0x03, 0x01, 0x02, 0x03];
    let data = module(&[section(0x0B, payload)]);
    let mut p = Parser::new(data);
    let res = p.parse().unwrap();
    let entries = res.data_entries.unwrap();
    assert_eq!(entries.len(), 1);
    assert_eq!(entries[0].index, 0);
    assert_eq!(entries[0].data, vec![1, 2, 3]);
}

#[test]
fn invalid_opcode_byte_is_rejected() {
    // 0x12 lies in the gap between the control and parametric ranges
    let payload: &[u8] = &[0x01, 0x7f, 0x00, 0x12, 0x0b];
    let data = module(&[section(0x06, payload)]);
    let mut p = Parser::new(data);
    assert_eq!(p.parse().unwrap_err(), ParseError::InvalidOpcode);
}

#[test]
fn initializer_without_end_is_malformed() {
    let payload: &[u8] = &[0x01, 0x7f, 0x00, 0x41, 0x41];
    let data = module(&[section(0x06, payload)]);
    let mut p = Parser::new(data);
    assert_eq!(p.parse().unwrap_err(), ParseError::MalformedInitExpr);
}

#[test]
fn opcode_table_covers_range_edges() {
    assert_eq!(opcode_from_byte(0x00).unwrap(), Opcode::unreachable);
    assert_eq!(opcode_from_byte(0x11).unwrap(), Opcode::call_indirect);
    assert_eq!(opcode_from_byte(0x1a).unwrap(), Opcode::drop);
    assert_eq!(opcode_from_byte(0x1b).unwrap(), Opcode::select);
    assert_eq!(opcode_from_byte(0x20).unwrap(), Opcode::get_local);
    assert_eq!(opcode_from_byte(0x24).unwrap(), Opcode::set_global);
    assert_eq!(opcode_from_byte(0x28).unwrap(), Opcode::i32_load);
    assert_eq!(opcode_from_byte(0xbf).unwrap(), Opcode::f64_reinterpret_i64);
    assert_eq!(opcode_from_byte(0x12).unwrap_err(), ParseError::InvalidOpcode);
    assert_eq!(opcode_from_byte(0x19).unwrap_err(), ParseError::InvalidOpcode);
    assert_eq!(opcode_from_byte(0x25).unwrap_err(), ParseError::InvalidOpcode);
    assert_eq!(opcode_from_byte(0x27).unwrap_err(), ParseError::InvalidOpcode);
    assert_eq!(opcode_from_byte(0xc0).unwrap_err(), ParseError::InvalidOpcode);
    assert_eq!(opcode_from_byte(0xff).unwrap_err(), ParseError::InvalidOpcode);
}

#[test]
fn type_tag_decoders_accept_only_their_sets() {
    assert_eq!(Type::from_int(0x7f).unwrap(), Type::I32);
    assert_eq!(Type::from_int(0x40).unwrap(), Type::empty_block);
    assert_eq!(Type::from_int(0x00).unwrap_err(), ParseError::InvalidTypeTag);
    assert_eq!(Type::value_type(0x7c).unwrap(), Type::F64);
    assert_eq!(Type::value_type(0x40).unwrap_err(), ParseError::InvalidTypeTag);
    assert_eq!(Type::block_type(0x40).unwrap(), Type::empty_block);
    assert_eq!(Type::block_type(0x70).unwrap_err(), ParseError::InvalidTypeTag);
    assert_eq!(Type::elem_type(0x70).unwrap(), Type::anyfunc);
    assert_eq!(Type::elem_type(0x7f).unwrap_err(), ParseError::InvalidTypeTag);
    assert_eq!(Type::func_type(0x60).unwrap(), Type::func);
    assert_eq!(Type::func_type(0x70).unwrap_err(), ParseError::InvalidTypeTag);
}
