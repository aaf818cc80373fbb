use wasm_decoder::parser::custom_section::NameType;
use wasm_decoder::parser::{ParseError, Parser};

fn header() -> Vec<u8> {
    vec![0x00, 0x61, 0x73, 0x6d, 0x01, 0x00, 0x00, 0x00]
}

/// A custom section: id 0, declared length covering the name prefix and
/// the payload.
fn custom_section(name: &[u8], payload: &[u8]) -> Vec<u8> {
    let mut body = vec![name.len() as u8];
    body.extend_from_slice(name);
    body.extend_from_slice(payload);
    let mut out = vec![0x00];
    assert!(body.len() < 0x80);
    out.push(body.len() as u8);
    out.extend_from_slice(&body);
    out
}

fn name_module(payload: &[u8]) -> Vec<u8> {
    let mut data = header();
    data.extend_from_slice(&custom_section(b"name", payload));
    data
}

/// A name subsection: tag, declared length, payload.
fn subsection(tag: u8, payload: &[u8]) -> Vec<u8> {
    let mut out = vec![tag];
    assert!(payload.len() < 0x80);
    out.push(payload.len() as u8);
    out.extend_from_slice(payload);
    out
}

#[test]
fn name_section_decodes_module_function_and_local_names() {
    let mut payload = Vec::new();
    // module name "M"
    payload.extend_from_slice(&subsection(0x00, &[0x01, 0x4d]));
    // one function name: index 0 -> "f"
    payload.extend_from_slice(&subsection(0x01, &[0x01, 0x00, 0x01, 0x66]));
    // one local map: function 0 -> { 0 -> "x" }
    payload.extend_from_slice(&subsection(0x02, &[0x01, 0x00, 0x01, 0x00, 0x01, 0x78]));
    // an unrecognized subsection, kept raw
    payload.extend_from_slice(&subsection(0x07, &[0xaa, 0xbb]));
    let mut p = Parser::new(name_module(&payload));
    let res = p.parse().unwrap();
    let namings = res.namings.unwrap();
    assert_eq!(namings.module.unwrap(), "M");
    let functions = namings.functions.unwrap();
    assert_eq!(functions.len(), 1);
    assert_eq!(functions[0].index, 0);
    assert_eq!(functions[0].name, "f");
    let locales = namings.locales.unwrap();
    assert_eq!(locales.len(), 1);
    assert_eq!(locales[0].0, 0);
    assert_eq!(locales[0].1.len(), 1);
    assert_eq!(locales[0].1[0].index, 0);
    assert_eq!(locales[0].1[0].name, "x");
    assert_eq!(namings.others.len(), 1);
    assert_eq!(namings.others[0].0, NameType::Unknown);
    assert_eq!(namings.others[0].1, vec![0xaa, 0xbb]);
}

#[test]
fn local_subsection_before_function_subsection_is_rejected() {
    let mut payload = Vec::new();
    payload.extend_from_slice(&subsection(0x02, &[0x01, 0x00, 0x01, 0x00, 0x01, 0x78]));
    payload.extend_from_slice(&subsection(0x01, &[0x01, 0x00, 0x01, 0x66]));
    let mut p = Parser::new(name_module(&payload));
    assert_eq!(p.parse().unwrap_err(), ParseError::DuplicateOrMisorderedNameSubsection);
}

#[test]
fn two_module_subsections_are_rejected() {
    let mut payload = Vec::new();
    payload.extend_from_slice(&subsection(0x00, &[0x01, 0x4d]));
    payload.extend_from_slice(&subsection(0x00, &[0x01, 0x4e]));
    let mut p = Parser::new(name_module(&payload));
    assert_eq!(p.parse().unwrap_err(), ParseError::DuplicateOrMisorderedNameSubsection);
}

#[test]
fn module_subsection_after_function_subsection_is_rejected() {
    let mut payload = Vec::new();
    payload.extend_from_slice(&subsection(0x01, &[0x01, 0x00, 0x01, 0x66]));
    payload.extend_from_slice(&subsection(0x00, &[0x01, 0x4d]));
    let mut p = Parser::new(name_module(&payload));
    assert_eq!(p.parse().unwrap_err(), ParseError::DuplicateOrMisorderedNameSubsection);
}

#[test]
fn other_custom_sections_are_kept_raw() {
    let mut data = header();
    data.extend_from_slice(&custom_section(b"hello", &[0xde, 0xad]));
    let mut p = Parser::new(data);
    let res = p.parse().unwrap();
    assert!(res.namings.is_none());
    assert_eq!(res.custom_sections.len(), 1);
    assert_eq!(res.custom_sections[0].0, "hello");
    assert_eq!(res.custom_sections[0].1, vec![0xde, 0xad]);
}

#[test]
fn custom_section_name_longer_than_payload_is_rejected() {
    // declared payload length 1, but the name field alone needs 2 bytes
    let mut data = header();
    data.extend_from_slice(&[0x00, 0x01, 0x01, 0x61]);
    let mut p = Parser::new(data);
    assert_eq!(p.parse().unwrap_err(), ParseError::SectionLengthMismatch);
}

#[test]
fn invalid_utf8_in_custom_section_name_is_rejected() {
    let mut data = header();
    data.extend_from_slice(&custom_section(&[0xff], &[]));
    let mut p = Parser::new(data);
    assert_eq!(p.parse().unwrap_err(), ParseError::InvalidUtf8);
}

#[test]
fn multi_byte_utf8_custom_section_name_decodes() {
    // "é" is c3 a9
    let mut data = header();
    data.extend_from_slice(&custom_section(&[0xc3, 0xa9], &[0x01]));
    let mut p = Parser::new(data);
    let res = p.parse().unwrap();
    assert_eq!(res.custom_sections[0].0, "\u{e9}");
}

#[test]
fn name_subsections_overrunning_the_section_are_rejected() {
    // the single subsection claims more bytes than the section holds
    let payload = subsection(0x07, &[0xaa]);
    let mut truncated = payload.clone();
    truncated[1] = 0x05;
    let mut data = header();
    // section length only covers the name prefix plus three bytes
    let mut body = vec![0x04u8];
    body.extend_from_slice(b"name");
    body.extend_from_slice(&truncated);
    let mut sec = vec![0x00u8, body.len() as u8];
    sec.extend_from_slice(&body);
    data.extend_from_slice(&sec);
    let mut p = Parser::new(data);
    assert!(p.parse().is_err());
}

#[test]
fn name_type_from_int_maps_tags() {
    assert_eq!(NameType::from_int(0), NameType::Module);
    assert_eq!(NameType::from_int(1), NameType::Function);
    assert_eq!(NameType::from_int(2), NameType::Local);
    assert_eq!(NameType::from_int(9), NameType::Unknown);
}
