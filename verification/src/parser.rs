//! The byte cursor and the top-level decode loop: preamble, section
//! headers, and dispatch to the per-section decoders.

use vstd::prelude::*;

pub mod code_section;
pub mod custom_section;
pub mod data_section;
pub mod element_section;
pub mod function_section;
pub mod global_section;
pub mod import_export_section;
pub mod memory_section;
pub mod start_section;
pub mod table_section;
pub mod type_section;
pub mod opcode;
pub mod varint;

use self::code_section::{FnBody, FnBodyV, spec_code_section};
use self::custom_section::{
    CustomSection, CustomSectionV, Namings, NamingsV, spec_name_subsections, spec_namings_empty,
};
use self::data_section::{DataEntry, DataEntryV, spec_data_section};
use self::element_section::{ElemSegment, ElemSegmentV, spec_element_section};
use self::function_section::spec_function_section;
use self::global_section::{GlobalVariable, spec_global_section};
use self::import_export_section::{
    ImportEntry, ImportEntryV, ExportEntry, ExportEntryV, spec_import_section, spec_export_section,
};
use self::memory_section::{MemoryType, spec_memory_section};
use self::table_section::{TableEntry, spec_table_section};
use self::type_section::{FuncType, FuncTypeV, spec_type_section};

verus! {

/// Every way a decode can fail. A failure aborts the whole decode:
/// no partial module is ever returned.
#[derive(Clone, Copy, Debug, PartialEq, Eq, Structural)]
pub enum ParseError {
    /// Fewer bytes remain than a fixed-width or exact-length read requires.
    UnexpectedEof,
    /// A LEB128 value uses more bytes than its declared bit width allows.
    VarintTooLong,
    /// The 4-byte magic number is not the module magic.
    InvalidPreamble,
    /// The 4-byte version field is not the single supported version.
    UnsupportedVersion,
    /// A section id outside the 12 recognized tags.
    UnknownSectionId,
    /// A section decoder consumed more or fewer bytes than the declared
    /// payload length.
    SectionLengthMismatch,
    /// An instruction byte outside the recognized opcode ranges.
    InvalidOpcode,
    /// An initializer expression not terminated by the `end` opcode.
    MalformedInitExpr,
    /// A type-tag byte outside its expected closed set.
    InvalidTypeTag,
    /// A name custom section repeats a structured subsection or orders
    /// them wrongly.
    DuplicateOrMisorderedNameSubsection,
    /// A name field is not valid UTF-8.
    InvalidUtf8,
}

/// Sequential reader over an in-memory byte source. All decoding walks
/// one cursor forward; `pos` is the next byte to read.
pub struct Parser {
    pub data: Vec<u8>,
    pub pos: usize,
}

/// A function index.
#[derive(Clone, Copy, Debug, PartialEq, Eq, Structural)]
pub struct FnId(pub u32);

/// The closed set of type tags: value types, the function-reference type,
/// the function-signature form, and the empty block type.
#[derive(Clone, Copy, Debug, PartialEq, Eq, Structural)]
#[allow(non_camel_case_types)]
pub enum Type {
    I32,
    I64,
    F32,
    F64,
    anyfunc,
    func,
    empty_block,
}

/// The tag byte of each member of the closed type set.
pub open spec fn spec_type_from_int(tag: u8) -> Result<Type, ParseError> {
    if tag == 0x7f {
        Ok(Type::I32)
    } else if tag == 0x7e {
        Ok(Type::I64)
    } else if tag == 0x7d {
        Ok(Type::F32)
    } else if tag == 0x7c {
        Ok(Type::F64)
    } else if tag == 0x70 {
        Ok(Type::anyfunc)
    } else if tag == 0x60 {
        Ok(Type::func)
    } else if tag == 0x40 {
        Ok(Type::empty_block)
    } else {
        Err(ParseError::InvalidTypeTag)
    }
}

/// The tag byte of a value type: i32, i64, f32 or f64.
pub open spec fn spec_value_type_tag(tag: u8) -> Result<Type, ParseError> {
    if tag == 0x7f {
        Ok(Type::I32)
    } else if tag == 0x7e {
        Ok(Type::I64)
    } else if tag == 0x7d {
        Ok(Type::F32)
    } else if tag == 0x7c {
        Ok(Type::F64)
    } else {
        Err(ParseError::InvalidTypeTag)
    }
}

/// The tag byte of a block type: a value type or the empty block.
pub open spec fn spec_block_type_tag(tag: u8) -> Result<Type, ParseError> {
    if tag == 0x40 {
        Ok(Type::empty_block)
    } else {
        spec_value_type_tag(tag)
    }
}

/// The tag byte of an element type: only the function reference.
pub open spec fn spec_elem_type_tag(tag: u8) -> Result<Type, ParseError> {
    if tag == 0x70 {
        Ok(Type::anyfunc)
    } else {
        Err(ParseError::InvalidTypeTag)
    }
}

/// The tag byte of a function-signature form: only `func`.
pub open spec fn spec_func_type_tag(tag: u8) -> Result<Type, ParseError> {
    if tag == 0x60 {
        Ok(Type::func)
    } else {
        Err(ParseError::InvalidTypeTag)
    }
}

impl Type {
    /// Decodes any tag of the closed type set.
    pub fn from_int(tag: u8) -> (r: Result<Type, ParseError>)
        ensures
            r == spec_type_from_int(tag),
    {
        match tag {
            0x7f => Ok(Type::I32),
            0x7e => Ok(Type::I64),
            0x7d => Ok(Type::F32),
            0x7c => Ok(Type::F64),
            0x70 => Ok(Type::anyfunc),
            0x60 => Ok(Type::func),
            0x40 => Ok(Type::empty_block),
            _ => Err(ParseError::InvalidTypeTag),
        }
    }

    /// Decodes a value-type tag.
    pub fn value_type(tag: u8) -> (r: Result<Type, ParseError>)
        ensures
            r == spec_value_type_tag(tag),
    {
        match tag {
            0x7f => Ok(Type::I32),
            0x7e => Ok(Type::I64),
            0x7d => Ok(Type::F32),
            0x7c => Ok(Type::F64),
            _ => Err(ParseError::InvalidTypeTag),
        }
    }

    /// Decodes a block-type tag.
    pub fn block_type(tag: u8) -> (r: Result<Type, ParseError>)
        ensures
            r == spec_block_type_tag(tag),
    {
        match tag {
            0x7f => Ok(Type::I32),
            0x7e => Ok(Type::I64),
            0x7d => Ok(Type::F32),
            0x7c => Ok(Type::F64),
            0x40 => Ok(Type::empty_block),
            _ => Err(ParseError::InvalidTypeTag),
        }
    }

    /// Decodes an element-type tag.
    pub fn elem_type(tag: u8) -> (r: Result<Type, ParseError>)
        ensures
            r == spec_elem_type_tag(tag),
    {
        match tag {
            0x70 => Ok(Type::anyfunc),
            _ => Err(ParseError::InvalidTypeTag),
        }
    }

    /// Decodes a function-signature form tag.
    pub fn func_type(tag: u8) -> (r: Result<Type, ParseError>)
        ensures
            r == spec_func_type_tag(tag),
    {
        match tag {
            0x60 => Ok(Type::func),
            _ => Err(ParseError::InvalidTypeTag),
        }
    }
}

/// A resizable-entity size descriptor: a flag, an initial size, and a
/// maximum present exactly when the flag is set.
#[derive(Clone, Copy, Debug, PartialEq, Eq)]
pub struct ResizableLimits {
    pub flags: bool,
    pub initial: u32,
    pub maximum: Option<u32>,
}

impl DeepView for FnId {
    type V = FnId;

    open spec fn deep_view(&self) -> FnId {
        *self
    }
}

impl DeepView for Type {
    type V = Type;

    open spec fn deep_view(&self) -> Type {
        *self
    }
}

impl DeepView for ResizableLimits {
    type V = ResizableLimits;

    open spec fn deep_view(&self) -> ResizableLimits {
        *self
    }
}

/// The 4-byte module magic, `00 61 73 6d` on disk read little-endian.
pub const MAGIC_NUM: u32 = 0x6d736100;

/// The single supported module version.
pub const SUPPORTED_VERSION: u32 = 0x1;

/// A UTF-8 continuation byte.
pub open spec fn utf8_cont(b: u8) -> bool {
    0x80 <= b <= 0xBF
}

/// Whether a byte sequence is valid UTF-8: the standard table of one- to
/// four-byte sequences, excluding overlong forms, surrogates, and values
/// above U+10FFFF.
pub open spec fn utf8_valid(s: Seq<u8>) -> bool
    decreases s.len(),
{
    if s.len() == 0 {
        true
    } else {
        let b0 = s[0];
        if b0 < 0x80 {
            utf8_valid(s.skip(1))
        } else if 0xC2 <= b0 <= 0xDF {
            s.len() >= 2 && utf8_cont(s[1]) && utf8_valid(s.skip(2))
        } else if b0 == 0xE0 {
            s.len() >= 3 && 0xA0 <= s[1] <= 0xBF && utf8_cont(s[2]) && utf8_valid(s.skip(3))
        } else if 0xE1 <= b0 <= 0xEC || 0xEE <= b0 <= 0xEF {
            s.len() >= 3 && utf8_cont(s[1]) && utf8_cont(s[2]) && utf8_valid(s.skip(3))
        } else if b0 == 0xED {
            s.len() >= 3 && 0x80 <= s[1] <= 0x9F && utf8_cont(s[2]) && utf8_valid(s.skip(3))
        } else if b0 == 0xF0 {
            s.len() >= 4 && 0x90 <= s[1] <= 0xBF && utf8_cont(s[2]) && utf8_cont(s[3])
                && utf8_valid(s.skip(4))
        } else if 0xF1 <= b0 <= 0xF3 {
            s.len() >= 4 && utf8_cont(s[1]) && utf8_cont(s[2]) && utf8_cont(s[3]) && utf8_valid(
                s.skip(4),
            )
        } else if b0 == 0xF4 {
            s.len() >= 4 && 0x80 <= s[1] <= 0x8F && utf8_cont(s[2]) && utf8_cont(s[3])
                && utf8_valid(s.skip(4))
        } else {
            false
        }
    }
}

/// The characters a valid UTF-8 byte sequence decodes to. The mapping is
/// fixed by the UTF-8 standard and depends on the bytes alone; the library
/// does not restate it and relies on the standard library to compute it.
pub uninterp spec fn utf8_chars(s: Seq<u8>) -> Seq<char>;

/// Relies on String::from_utf8: it returns Ok exactly on valid UTF-8
/// input, and the string then holds the input's decoded characters.
#[verifier::external_body]
fn string_from_utf8(b: Vec<u8>) -> (r: Result<String, ParseError>)
    ensures
        r matches Ok(s) ==> utf8_valid(b@) && s@ == utf8_chars(b@),
        r matches Err(e) ==> !utf8_valid(b@) && e == ParseError::InvalidUtf8,
{
    match String::from_utf8(b) {
        Ok(s) => Ok(s),
        Err(_) => Err(ParseError::InvalidUtf8),
    }
}

/// Reading a fixed-width little-endian 32-bit integer.
pub open spec fn spec_u32le(d: Seq<u8>, pos: int) -> Result<(u32, int), ParseError> {
    if pos >= 0 && pos + 4 <= d.len() {
        Ok(
            (
                (d[pos] + d[pos + 1] * 0x100 + d[pos + 2] * 0x10000 + d[pos + 3]
                    * 0x1000000) as u32,
                pos + 4,
            ),
        )
    } else {
        Err(ParseError::UnexpectedEof)
    }
}

/// Reading a length-prefixed UTF-8 string: a 32-bit varuint byte count,
/// then that many bytes, which must be valid UTF-8.
pub open spec fn spec_name(d: Seq<u8>, pos: int) -> Result<(Seq<char>, int), ParseError> {
    match crate::parser::varint::spec_varuint32(d, pos) {
        Err(e) => Err(e),
        Ok((len, p)) => match spec_bytes(d, p, len as nat) {
            Err(e) => Err(e),
            Ok((bs, p2)) => if utf8_valid(bs) {
                Ok((utf8_chars(bs), p2))
            } else {
                Err(ParseError::InvalidUtf8)
            },
        },
    }
}

/// Reading a value type: a 7-bit varuint holding a value-type tag.
pub open spec fn spec_value_type(d: Seq<u8>, pos: int) -> Result<(Type, int), ParseError> {
    match crate::parser::varint::spec_varuint7(d, pos) {
        Err(e) => Err(e),
        Ok((tag, p)) => match spec_value_type_tag(tag) {
            Err(e) => Err(e),
            Ok(ty) => Ok((ty, p)),
        },
    }
}

/// Reading resizable limits: a 1-bit flag, the initial size, and, when the
/// flag is set, the maximum size.
pub open spec fn spec_limits(d: Seq<u8>, pos: int) -> Result<(ResizableLimits, int), ParseError> {
    match crate::parser::varint::spec_varuint1(d, pos) {
        Err(e) => Err(e),
        Ok((flag, p1)) => match crate::parser::varint::spec_varuint32(d, p1) {
            Err(e) => Err(e),
            Ok((initial, p2)) => if flag {
                match crate::parser::varint::spec_varuint32(d, p2) {
                    Err(e) => Err(e),
                    Ok((max, p3)) => Ok(
                        (ResizableLimits { flags: true, initial, maximum: Some(max) }, p3),
                    ),
                }
            } else {
                Ok((ResizableLimits { flags: false, initial, maximum: None }, p2))
            },
        },
    }
}

/// The aggregate decode result: one optional typed collection per defined
/// section kind, absent when the section is not present in the input.
#[derive(Debug)]
pub struct ParseResult {
    pub namings: Option<Namings>,
    pub custom_sections: Vec<CustomSection>,
    pub function_types: Option<Vec<FuncType>>,
    pub import_entires: Option<Vec<ImportEntry>>,
    pub function_ids: Option<Vec<FnId>>,
    pub table_entries: Option<Vec<TableEntry>>,
    pub memory_types: Option<Vec<MemoryType>>,
    pub global_variables: Option<Vec<GlobalVariable>>,
    pub export_entires: Option<Vec<ExportEntry>>,
    pub start_function: Option<FnId>,
    pub element_segments: Option<Vec<ElemSegment>>,
    pub function_bodies: Option<Vec<FnBody>>,
    pub data_entries: Option<Vec<DataEntry>>,
}

/// The mathematical shape of a decode result.
#[verifier::ext_equal]
pub struct ParseResultV {
    pub namings: Option<NamingsV>,
    pub custom_sections: Seq<CustomSectionV>,
    pub function_types: Option<Seq<FuncTypeV>>,
    pub import_entires: Option<Seq<ImportEntryV>>,
    pub function_ids: Option<Seq<FnId>>,
    pub table_entries: Option<Seq<TableEntry>>,
    pub memory_types: Option<Seq<MemoryType>>,
    pub global_variables: Option<Seq<GlobalVariable>>,
    pub export_entires: Option<Seq<ExportEntryV>>,
    pub start_function: Option<FnId>,
    pub element_segments: Option<Seq<ElemSegmentV>>,
    pub function_bodies: Option<Seq<FnBodyV>>,
    pub data_entries: Option<Seq<DataEntryV>>,
}

impl DeepView for ParseResult {
    type V = ParseResultV;

    open spec fn deep_view(&self) -> ParseResultV {
        ParseResultV {
            namings: self.namings.deep_view(),
            custom_sections: self.custom_sections.deep_view(),
            function_types: self.function_types.deep_view(),
            import_entires: self.import_entires.deep_view(),
            function_ids: self.function_ids.deep_view(),
            table_entries: self.table_entries.deep_view(),
            memory_types: self.memory_types.deep_view(),
            global_variables: self.global_variables.deep_view(),
            export_entires: self.export_entires.deep_view(),
            start_function: self.start_function,
            element_segments: self.element_segments.deep_view(),
            function_bodies: self.function_bodies.deep_view(),
            data_entries: self.data_entries.deep_view(),
        }
    }
}

/// A decode result with every section absent.
pub open spec fn spec_parse_result_empty() -> ParseResultV {
    ParseResultV {
        namings: None,
        custom_sections: Seq::empty(),
        function_types: None,
        import_entires: None,
        function_ids: None,
        table_entries: None,
        memory_types: None,
        global_variables: None,
        export_entires: None,
        start_function: None,
        element_segments: None,
        function_bodies: None,
        data_entries: None,
    }
}

impl ParseResult {
    /// An empty decode result, before any section is read.
    pub fn new() -> (r: ParseResult)
        ensures
            r.deep_view() == spec_parse_result_empty(),
    {
        let r = ParseResult {
            namings: None,
            custom_sections: Vec::<CustomSection>::new(),
            function_types: None,
            import_entires: None,
            function_ids: None,
            table_entries: None,
            memory_types: None,
            global_variables: None,
            export_entires: None,
            start_function: None,
            element_segments: None,
            function_bodies: None,
            data_entries: None,
        };
        proof {
            assert(r.deep_view() =~= spec_parse_result_empty());
        }
        r
    }
}

/// Reading one section and folding it into the decode result: the id, the
/// declared payload length, for id 0 the section name, then the matching
/// decoder, which must consume exactly the declared payload (the name and
/// its length prefix count against it). A name whose encoding is longer
/// than the declared payload, or a decoder that consumes a different
/// number of bytes, is a `SectionLengthMismatch`; an id above 0xB is an
/// `UnknownSectionId`.
pub open spec fn spec_section(d: Seq<u8>, pos: int, m: ParseResultV) -> Result<
    (ParseResultV, int),
    ParseError,
> {
    match crate::parser::varint::spec_varuint7(d, pos) {
        Err(e) => Err(e),
        Ok((id, p1)) => match crate::parser::varint::spec_varuint32(d, p1) {
            Err(e) => Err(e),
            Ok((plen, p2)) => {
                let sec_end = p2 + plen;
                if id == 0 {
                    match crate::parser::varint::spec_varuint32(d, p2) {
                        Err(e) => Err(e),
                        Ok((nlen, p3)) => {
                            let noff = (p3 - p2) + nlen;
                            if noff > plen {
                                Err(ParseError::SectionLengthMismatch)
                            } else {
                                match spec_bytes(d, p3, nlen as nat) {
                                    Err(e) => Err(e),
                                    Ok((nbytes, p4)) => if !utf8_valid(nbytes) {
                                        Err(ParseError::InvalidUtf8)
                                    } else {
                                        let nm = utf8_chars(nbytes);
                                        let dlen = plen - noff;
                                        if nm == "name"@ {
                                            match spec_name_subsections(
                                                d,
                                                p4,
                                                p4 + dlen,
                                                spec_namings_empty(),
                                            ) {
                                                Err(e) => Err(e),
                                                Ok((ns, p5)) => if p5 == sec_end {
                                                    Ok(
                                                        (
                                                            ParseResultV {
                                                                namings: Some(ns),
                                                                ..m
                                                            },
                                                            p5,
                                                        ),
                                                    )
                                                } else {
                                                    Err(ParseError::SectionLengthMismatch)
                                                },
                                            }
                                        } else {
                                            match spec_bytes(d, p4, dlen as nat) {
                                                Err(e) => Err(e),
                                                Ok((payload, p5)) => Ok(
                                                    (
                                                        ParseResultV {
                                                            custom_sections: m.custom_sections.push(
                                                                CustomSectionV(nm, payload),
                                                            ),
                                                            ..m
                                                        },
                                                        p5,
                                                    ),
                                                ),
                                            }
                                        }
                                    },
                                }
                            }
                        },
                    }
                } else if id == 1 {
                    match spec_type_section(d, p2) {
                        Err(e) => Err(e),
                        Ok((s, p3)) => if p3 == sec_end {
                            Ok((ParseResultV { function_types: Some(s), ..m }, p3))
                        } else {
                            Err(ParseError::SectionLengthMismatch)
                        },
                    }
                } else if id == 2 {
                    match spec_import_section(d, p2) {
                        Err(e) => Err(e),
                        Ok((s, p3)) => if p3 == sec_end {
                            Ok((ParseResultV { import_entires: Some(s), ..m }, p3))
                        } else {
                            Err(ParseError::SectionLengthMismatch)
                        },
                    }
                } else if id == 3 {
                    match spec_function_section(d, p2) {
                        Err(e) => Err(e),
                        Ok((s, p3)) => if p3 == sec_end {
                            Ok((ParseResultV { function_ids: Some(s), ..m }, p3))
                        } else {
                            Err(ParseError::SectionLengthMismatch)
                        },
                    }
                } else if id == 4 {
                    match spec_table_section(d, p2) {
                        Err(e) => Err(e),
                        Ok((s, p3)) => if p3 == sec_end {
                            Ok((ParseResultV { table_entries: Some(s), ..m }, p3))
                        } else {
                            Err(ParseError::SectionLengthMismatch)
                        },
                    }
                } else if id == 5 {
                    match spec_memory_section(d, p2) {
                        Err(e) => Err(e),
                        Ok((s, p3)) => if p3 == sec_end {
                            Ok((ParseResultV { memory_types: Some(s), ..m }, p3))
                        } else {
                            Err(ParseError::SectionLengthMismatch)
                        },
                    }
                } else if id == 6 {
                    match spec_global_section(d, p2) {
                        Err(e) => Err(e),
                        Ok((s, p3)) => if p3 == sec_end {
                            Ok((ParseResultV { global_variables: Some(s), ..m }, p3))
                        } else {
                            Err(ParseError::SectionLengthMismatch)
                        },
                    }
                } else if id == 7 {
                    match spec_export_section(d, p2) {
                        Err(e) => Err(e),
                        Ok((s, p3)) => if p3 == sec_end {
                            Ok((ParseResultV { export_entires: Some(s), ..m }, p3))
                        } else {
                            Err(ParseError::SectionLengthMismatch)
                        },
                    }
                } else if id == 8 {
                    match crate::parser::start_section::spec_start_section(d, p2) {
                        Err(e) => Err(e),
                        Ok((v, p3)) => if p3 == sec_end {
                            Ok((ParseResultV { start_function: Some(v), ..m }, p3))
                        } else {
                            Err(ParseError::SectionLengthMismatch)
                        },
                    }
                } else if id == 9 {
                    match spec_element_section(d, p2) {
                        Err(e) => Err(e),
                        Ok((s, p3)) => if p3 == sec_end {
                            Ok((ParseResultV { element_segments: Some(s), ..m }, p3))
                        } else {
                            Err(ParseError::SectionLengthMismatch)
                        },
                    }
                } else if id == 0xA {
                    match spec_code_section(d, p2) {
                        Err(e) => Err(e),
                        Ok((s, p3)) => if p3 == sec_end {
                            Ok((ParseResultV { function_bodies: Some(s), ..m }, p3))
                        } else {
                            Err(ParseError::SectionLengthMismatch)
                        },
                    }
                } else if id == 0xB {
                    match spec_data_section(d, p2) {
                        Err(e) => Err(e),
                        Ok((s, p3)) => if p3 == sec_end {
                            Ok((ParseResultV { data_entries: Some(s), ..m }, p3))
                        } else {
                            Err(ParseError::SectionLengthMismatch)
                        },
                    }
                } else {
                    Err(ParseError::UnknownSectionId)
                }
            },
        },
    }
}

/// Reading sections until the data is exhausted, folding each into the
/// decode result. Reaching the end of the data at a section boundary is
/// the one clean termination point. A section whose end does not advance
/// within the data would mean a malformed decode; it is reported as a
/// length mismatch, and the exec decoder shows the case cannot arise.
pub open spec fn spec_sections(d: Seq<u8>, pos: int, m: ParseResultV) -> Result<
    ParseResultV,
    ParseError,
>
    decreases d.len() - pos,
{
    if pos >= d.len() {
        Ok(m)
    } else {
        match spec_section(d, pos, m) {
            Err(e) => Err(e),
            Ok((m2, p2)) => if pos < p2 <= d.len() {
                spec_sections(d, p2, m2)
            } else {
                Err(ParseError::SectionLengthMismatch)
            },
        }
    }
}

/// Decoding a whole module: the preamble, then sections to the end of the
/// data.
pub open spec fn spec_parse(d: Seq<u8>) -> Result<ParseResultV, ParseError> {
    match spec_preamble(d) {
        Err(e) => Err(e),
        Ok(p8) => spec_sections(d, p8, spec_parse_result_empty()),
    }
}

/// Round-trip byte accounting: whenever a section decodes, the decoding
/// ends exactly one declared payload length after the payload begins —
/// the responsible decoder consumed precisely the length the header
/// declared, the name bytes of a custom section included.
#[verifier::rlimit(100)]
pub proof fn lemma_section_byte_accounting(d: Seq<u8>, pos: int, m: ParseResultV)
    ensures
        spec_section(d, pos, m) matches Ok((m2, end)) ==> (crate::parser::varint::spec_varuint7(
            d,
            pos,
        ) matches Ok((id, p1)) && (crate::parser::varint::spec_varuint32(d, p1) matches Ok(
            (plen, p2),
        ) && end == p2 + plen)),
{
}

/// Preamble rejection: a module whose first four bytes read as anything
/// but the magic constant fails with `InvalidPreamble`, and one whose
/// magic is right but whose version is not the supported one fails with
/// `UnsupportedVersion`.
pub proof fn lemma_preamble_rejection(d: Seq<u8>)
    ensures
        (spec_u32le(d, 0) matches Ok((magic, p)) && magic != MAGIC_NUM) ==> spec_parse(d)
            == Err::<ParseResultV, ParseError>(ParseError::InvalidPreamble),
        (spec_u32le(d, 0) matches Ok((magic, p)) && (magic == MAGIC_NUM && (spec_u32le(d, p)
            matches Ok((version, p2)) && version != SUPPORTED_VERSION))) ==> spec_parse(d)
            == Err::<ParseResultV, ParseError>(ParseError::UnsupportedVersion),
{
}

/// Unknown-section rejection: a section id of 0x0C or higher, once the
/// header's payload length reads, fails with `UnknownSectionId`.
pub proof fn lemma_unknown_section_rejection(d: Seq<u8>, pos: int, m: ParseResultV)
    ensures
        (crate::parser::varint::spec_varuint7(d, pos) matches Ok((id, p1)) && (id >= 0x0C
            && crate::parser::varint::spec_varuint32(d, p1) is Ok)) ==> spec_section(d, pos, m)
            == Err::<(ParseResultV, int), ParseError>(ParseError::UnknownSectionId),
{
}

/// Checking the 8-byte preamble: the magic constant, then the supported
/// version. Returns the position after the preamble.
pub open spec fn spec_preamble(d: Seq<u8>) -> Result<int, ParseError> {
    match spec_u32le(d, 0) {
        Err(e) => Err(e),
        Ok((magic, p)) => if magic != MAGIC_NUM {
            Err(ParseError::InvalidPreamble)
        } else {
            match spec_u32le(d, p) {
                Err(e) => Err(e),
                Ok((version, p2)) => if version != SUPPORTED_VERSION {
                    Err(ParseError::UnsupportedVersion)
                } else {
                    Ok(p2)
                },
            }
        },
    }
}

/// Reading `n` bytes at `pos`: the raw bytes and the position after them,
/// or `UnexpectedEof` if fewer than `n` bytes remain.
pub open spec fn spec_bytes(d: Seq<u8>, pos: int, n: nat) -> Result<(Seq<u8>, int), ParseError> {
    if pos + n <= d.len() {
        Ok((d.subrange(pos, pos + n), pos + n))
    } else {
        Err(ParseError::UnexpectedEof)
    }
}

impl Parser {
    /// The cursor never stands past the end of its data.
    pub open spec fn wf(&self) -> bool {
        self.pos <= self.data.len()
    }

    pub fn new(data: Vec<u8>) -> (r: Parser)
        ensures
            r.data == data,
            r.pos == 0,
            r.wf(),
    {
        Parser { data, pos: 0 }
    }

    /// Position of the next byte to read, counted from the start of the data.
    pub fn get_current_offset(&self) -> (r: usize)
        ensures
            r == self.pos,
    {
        self.pos
    }

    /// How many bytes were consumed since the position `old_offset`.
    pub fn get_read_len(&self, old_offset: usize) -> (r: usize)
        requires
            old_offset <= self.pos,
        ensures
            r == self.pos - old_offset,
    {
        self.pos - old_offset
    }

    pub fn read_byte(&mut self) -> (r: Result<u8, ParseError>)
        requires
            old(self).wf(),
        ensures
            final(self).wf(),
            final(self).data == old(self).data,
            old(self).pos <= final(self).pos,
            if old(self).pos < old(self).data.len() {
                r matches Ok(b) && b == old(self).data@[old(self).pos as int]
                    && final(self).pos == old(self).pos + 1
            } else {
                r == Err::<u8, ParseError>(ParseError::UnexpectedEof)
                    && final(self).pos == old(self).pos
            },
    {
        if self.pos < self.data.len() {
            let b = self.data[self.pos];
            self.pos = self.pos + 1;
            Ok(b)
        } else {
            Err(ParseError::UnexpectedEof)
        }
    }

    pub fn read_bytes(&mut self, len: u32) -> (r: Result<Vec<u8>, ParseError>)
        requires
            old(self).wf(),
        ensures
            final(self).wf(),
            final(self).data == old(self).data,
            old(self).pos <= final(self).pos,
            match spec_bytes(old(self).data@, old(self).pos as int, len as nat) {
                Ok((bs, p)) => r matches Ok(v) && v@ == bs && final(self).pos == p,
                Err(e) => r matches Err(e2) && e2 == e,
            },
    {
        if (len as usize) > self.data.len() - self.pos {
            return Err(ParseError::UnexpectedEof);
        }
        let start = self.pos;
        let mut out: Vec<u8> = Vec::new();
        let mut i: usize = 0;
        while i < len as usize
            invariant
                self.wf(),
                self.data == old(self).data,
                i <= len as usize,
                len as usize <= self.data.len() - start,
                self.pos == start + i,
                out@ == self.data@.subrange(start as int, start + i),
            decreases len as usize - i,
        {
            let b = self.data[self.pos];
            out.push(b);
            self.pos = self.pos + 1;
            i = i + 1;
            proof {
                assert(out@ =~= self.data@.subrange(start as int, start + i));
            }
        }
        Ok(out)
    }

    /// Reads `len` bytes as a UTF-8 string.
    pub fn read_utf8(&mut self, len: u32) -> (r: Result<String, ParseError>)
        requires
            old(self).wf(),
        ensures
            final(self).wf(),
            final(self).data == old(self).data,
            old(self).pos <= final(self).pos,
            match spec_bytes(old(self).data@, old(self).pos as int, len as nat) {
                Ok((bs, p)) => final(self).pos == p && if utf8_valid(bs) {
                    r matches Ok(s) && s@ == utf8_chars(bs)
                } else {
                    r == Err::<String, ParseError>(ParseError::InvalidUtf8)
                },
                Err(e) => r matches Err(e2) && e2 == e,
            },
    {
        let bytes = match self.read_bytes(len) {
            Ok(b) => b,
            Err(e) => {
                return Err(e);
            },
        };
        string_from_utf8(bytes)
    }

    /// Reads a string prefixed with its byte length as a 32-bit varuint.
    pub fn read_utf8_str_vu32(&mut self) -> (r: Result<String, ParseError>)
        requires
            old(self).wf(),
        ensures
            final(self).wf(),
            final(self).data == old(self).data,
            old(self).pos <= final(self).pos,
            match spec_name(old(self).data@, old(self).pos as int) {
                Ok((cs, p)) => r matches Ok(s) && s@ == cs && final(self).pos == p,
                Err(e) => r matches Err(e2) && e2 == e,
            },
    {
        let len = match self.read_varuint32() {
            Ok(v) => v,
            Err(e) => {
                return Err(e);
            },
        };
        self.read_utf8(len)
    }

    /// Reads a fixed-width little-endian 32-bit integer.
    pub fn read_uint32(&mut self) -> (r: Result<u32, ParseError>)
        requires
            old(self).wf(),
        ensures
            final(self).wf(),
            final(self).data == old(self).data,
            old(self).pos <= final(self).pos,
            match spec_u32le(old(self).data@, old(self).pos as int) {
                Ok((v, p)) => r matches Ok(x) && x == v && final(self).pos == p,
                Err(e) => r matches Err(e2) && e2 == e,
            },
    {
        if self.data.len() - self.pos < 4 {
            return Err(ParseError::UnexpectedEof);
        }
        let b0 = self.data[self.pos] as u32;
        let b1 = self.data[self.pos + 1] as u32;
        let b2 = self.data[self.pos + 2] as u32;
        let b3 = self.data[self.pos + 3] as u32;
        self.pos = self.pos + 4;
        Ok(b0 + b1 * 0x100 + b2 * 0x10000 + b3 * 0x1000000)
    }

    /// Reads a value-type tag.
    pub fn read_value_type(&mut self) -> (r: Result<Type, ParseError>)
        requires
            old(self).wf(),
        ensures
            final(self).wf(),
            final(self).data == old(self).data,
            old(self).pos <= final(self).pos,
            match spec_value_type(old(self).data@, old(self).pos as int) {
                Ok((ty, p)) => r matches Ok(t) && t == ty && final(self).pos == p,
                Err(e) => r matches Err(e2) && e2 == e,
            },
    {
        let tag = match self.read_varuint7() {
            Ok(t) => t,
            Err(e) => {
                return Err(e);
            },
        };
        Type::value_type(tag)
    }

    /// Reads resizable limits: flag, initial size, and optional maximum.
    pub fn read_resizable_limits(&mut self) -> (r: Result<ResizableLimits, ParseError>)
        requires
            old(self).wf(),
        ensures
            final(self).wf(),
            final(self).data == old(self).data,
            old(self).pos <= final(self).pos,
            match spec_limits(old(self).data@, old(self).pos as int) {
                Ok((l, p)) => r matches Ok(x) && x == l && final(self).pos == p,
                Err(e) => r matches Err(e2) && e2 == e,
            },
    {
        let limits_flag = match self.read_varuint1() {
            Ok(f) => f,
            Err(e) => {
                return Err(e);
            },
        };
        let limits_initial = match self.read_varuint32() {
            Ok(v) => v,
            Err(e) => {
                return Err(e);
            },
        };
        let limits_maximum = if limits_flag {
            match self.read_varuint32() {
                Ok(v) => Some(v),
                Err(e) => {
                    return Err(e);
                },
            }
        } else {
            None
        };
        Ok(
            ResizableLimits {
                flags: limits_flag,
                initial: limits_initial,
                maximum: limits_maximum,
            },
        )
    }

    /// Checks the 8-byte preamble: magic constant, then supported version.
    pub fn parse_preamble(&mut self) -> (r: Result<(), ParseError>)
        requires
            old(self).wf(),
            old(self).pos == 0,
        ensures
            final(self).wf(),
            final(self).data == old(self).data,
            old(self).pos <= final(self).pos,
            match spec_preamble(old(self).data@) {
                Ok(p) => r matches Ok(u) && final(self).pos == p,
                Err(e) => r matches Err(e2) && e2 == e,
            },
    {
        let magic = match self.read_uint32() {
            Ok(v) => v,
            Err(e) => {
                return Err(e);
            },
        };
        if magic != MAGIC_NUM {
            return Err(ParseError::InvalidPreamble);
        }
        let version = match self.read_uint32() {
            Ok(v) => v,
            Err(e) => {
                return Err(e);
            },
        };
        if version != SUPPORTED_VERSION {
            return Err(ParseError::UnsupportedVersion);
        }
        Ok(())
    }

    /// Reads one section header, dispatches to the matching decoder, and
    /// checks that it consumed exactly the declared payload length. On
    /// success the result gains the decoded section; on failure it is
    /// untouched.
    #[verifier::rlimit(100)]
    pub fn parse_section(&mut self, result: &mut ParseResult) -> (r: Result<(), ParseError>)
        requires
            old(self).wf(),
        ensures
            final(self).wf(),
            final(self).data == old(self).data,
            old(self).pos <= final(self).pos,
            match spec_section(old(self).data@, old(self).pos as int, old(result).deep_view()) {
                Ok((m2, p)) => r matches Ok(u) && final(result).deep_view() == m2
                    && final(self).pos == p && old(self).pos < final(self).pos,
                Err(e) => r matches Err(e2) && e2 == e && *final(result) == *old(result),
            },
    {
        let ghost m = result.deep_view();
        let sec_id = match self.read_varuint7() {
            Ok(v) => v,
            Err(e) => {
                return Err(e);
            },
        };
        let payload_len = match self.read_varuint32() {
            Ok(v) => v,
            Err(e) => {
                return Err(e);
            },
        };
        if sec_id == 0 {
            let ghost p2 = self.pos as int;
            let (name_len_raw, name_len_size) = match self.read_varuint_len(32) {
                Ok(x) => x,
                Err(e) => {
                    return Err(e);
                },
            };
            let name_len: u32 = (name_len_raw % 0x100000000) as u32;
            let name_offset: u64 = name_len_size + name_len as u64;
            if name_offset > payload_len as u64 {
                return Err(ParseError::SectionLengthMismatch);
            }
            let name = match self.read_utf8(name_len) {
                Ok(s) => s,
                Err(e) => {
                    return Err(e);
                },
            };
            let payload_data_len: u32 = payload_len - (name_offset as u32);
            let data_start = self.get_current_offset();
            let name_tag: String = "name".to_owned();
            if name == name_tag {
                let ns = match self.parse_name_custom_section(payload_data_len) {
                    Ok(ns) => ns,
                    Err(e) => {
                        return Err(e);
                    },
                };
                if self.get_read_len(data_start) != payload_data_len as usize {
                    return Err(ParseError::SectionLengthMismatch);
                }
                result.namings = Some(ns);
                proof {
                    assert(result.deep_view() =~= (ParseResultV {
                        namings: result.deep_view().namings,
                        ..m
                    }));
                }
                Ok(())
            } else {
                let cs = match self.parse_custom_section(name.as_str(), payload_data_len) {
                    Ok(cs) => cs,
                    Err(e) => {
                        return Err(e);
                    },
                };
                if self.get_read_len(data_start) != payload_data_len as usize {
                    return Err(ParseError::SectionLengthMismatch);
                }
                let ghost prev = result.custom_sections.deep_view();
                result.custom_sections.push(cs);
                proof {
                    assert(result.custom_sections.deep_view() =~= prev.push(cs.deep_view()));
                    assert(result.deep_view() =~= (ParseResultV {
                        custom_sections: result.custom_sections.deep_view(),
                        ..m
                    }));
                }
                Ok(())
            }
        } else if sec_id <= 0xB {
            let data_start = self.get_current_offset();
            match sec_id {
                0x1 => {
                    let s = match self.parse_type_section(payload_len) {
                        Ok(s) => s,
                        Err(e) => {
                            return Err(e);
                        },
                    };
                    if self.get_read_len(data_start) != payload_len as usize {
                        return Err(ParseError::SectionLengthMismatch);
                    }
                    result.function_types = Some(s);
                    proof {
                        assert(result.deep_view() =~= (ParseResultV {
                            function_types: result.deep_view().function_types,
                            ..m
                        }));
                    }
                    Ok(())
                },
                0x2 => {
                    let s = match self.parse_import_section(payload_len) {
                        Ok(s) => s,
                        Err(e) => {
                            return Err(e);
                        },
                    };
                    if self.get_read_len(data_start) != payload_len as usize {
                        return Err(ParseError::SectionLengthMismatch);
                    }
                    result.import_entires = Some(s);
                    proof {
                        assert(result.deep_view() =~= (ParseResultV {
                            import_entires: result.deep_view().import_entires,
                            ..m
                        }));
                    }
                    Ok(())
                },
                0x3 => {
                    let s = match self.parse_function_section(payload_len) {
                        Ok(s) => s,
                        Err(e) => {
                            return Err(e);
                        },
                    };
                    if self.get_read_len(data_start) != payload_len as usize {
                        return Err(ParseError::SectionLengthMismatch);
                    }
                    result.function_ids = Some(s);
                    proof {
                        assert(result.deep_view() =~= (ParseResultV {
                            function_ids: result.deep_view().function_ids,
                            ..m
                        }));
                    }
                    Ok(())
                },
                0x4 => {
                    let s = match self.parse_table_section(payload_len) {
                        Ok(s) => s,
                        Err(e) => {
                            return Err(e);
                        },
                    };
                    if self.get_read_len(data_start) != payload_len as usize {
                        return Err(ParseError::SectionLengthMismatch);
                    }
                    result.table_entries = Some(s);
                    proof {
                        assert(result.deep_view() =~= (ParseResultV {
                            table_entries: result.deep_view().table_entries,
                            ..m
                        }));
                    }
                    Ok(())
                },
                0x5 => {
                    let s = match self.parse_memory_section(payload_len) {
                        Ok(s) => s,
                        Err(e) => {
                            return Err(e);
                        },
                    };
                    if self.get_read_len(data_start) != payload_len as usize {
                        return Err(ParseError::SectionLengthMismatch);
                    }
                    result.memory_types = Some(s);
                    proof {
                        assert(result.deep_view() =~= (ParseResultV {
                            memory_types: result.deep_view().memory_types,
                            ..m
                        }));
                    }
                    Ok(())
                },
                0x6 => {
                    let s = match self.parse_global_section(payload_len) {
                        Ok(s) => s,
                        Err(e) => {
                            return Err(e);
                        },
                    };
                    if self.get_read_len(data_start) != payload_len as usize {
                        return Err(ParseError::SectionLengthMismatch);
                    }
                    result.global_variables = Some(s);
                    proof {
                        assert(result.deep_view() =~= (ParseResultV {
                            global_variables: result.deep_view().global_variables,
                            ..m
                        }));
                    }
                    Ok(())
                },
                0x7 => {
                    let s = match self.parse_export_section(payload_len) {
                        Ok(s) => s,
                        Err(e) => {
                            return Err(e);
                        },
                    };
                    if self.get_read_len(data_start) != payload_len as usize {
                        return Err(ParseError::SectionLengthMismatch);
                    }
                    result.export_entires = Some(s);
                    proof {
                        assert(result.deep_view() =~= (ParseResultV {
                            export_entires: result.deep_view().export_entires,
                            ..m
                        }));
                    }
                    Ok(())
                },
                0x8 => {
                    let v = match self.parse_start_section(payload_len) {
                        Ok(v) => v,
                        Err(e) => {
                            return Err(e);
                        },
                    };
                    if self.get_read_len(data_start) != payload_len as usize {
                        return Err(ParseError::SectionLengthMismatch);
                    }
                    result.start_function = Some(v);
                    proof {
                        assert(result.deep_view() =~= (ParseResultV {
                            start_function: result.start_function,
                            ..m
                        }));
                    }
                    Ok(())
                },
                0x9 => {
                    let s = match self.parse_element_section(payload_len) {
                        Ok(s) => s,
                        Err(e) => {
                            return Err(e);
                        },
                    };
                    if self.get_read_len(data_start) != payload_len as usize {
                        return Err(ParseError::SectionLengthMismatch);
                    }
                    result.element_segments = Some(s);
                    proof {
                        assert(result.deep_view() =~= (ParseResultV {
                            element_segments: result.deep_view().element_segments,
                            ..m
                        }));
                    }
                    Ok(())
                },
                0xA => {
                    let s = match self.parse_code_section(payload_len) {
                        Ok(s) => s,
                        Err(e) => {
                            return Err(e);
                        },
                    };
                    if self.get_read_len(data_start) != payload_len as usize {
                        return Err(ParseError::SectionLengthMismatch);
                    }
                    result.function_bodies = Some(s);
                    proof {
                        assert(result.deep_view() =~= (ParseResultV {
                            function_bodies: result.deep_view().function_bodies,
                            ..m
                        }));
                    }
                    Ok(())
                },
                _ => {
                    let s = match self.parse_data_section(payload_len) {
                        Ok(s) => s,
                        Err(e) => {
                            return Err(e);
                        },
                    };
                    if self.get_read_len(data_start) != payload_len as usize {
                        return Err(ParseError::SectionLengthMismatch);
                    }
                    result.data_entries = Some(s);
                    proof {
                        assert(result.deep_view() =~= (ParseResultV {
                            data_entries: result.deep_view().data_entries,
                            ..m
                        }));
                    }
                    Ok(())
                },
            }
        } else {
            Err(ParseError::UnknownSectionId)
        }
    }

    /// Decodes a whole module: the preamble, then sections until the data
    /// is exhausted. A failed decode never yields a result.
    pub fn parse(&mut self) -> (r: Result<ParseResult, ParseError>)
        requires
            old(self).wf(),
            old(self).pos == 0,
        ensures
            final(self).wf(),
            final(self).data == old(self).data,
            match spec_parse(old(self).data@) {
                Ok(m) => r matches Ok(x) && x.deep_view() == m,
                Err(e) => r matches Err(e2) && e2 == e,
            },
    {
        let ghost d = self.data@;
        match self.parse_preamble() {
            Ok(u) => u,
            Err(e) => {
                return Err(e);
            },
        };
        let ghost p8 = self.pos as int;
        let mut result = ParseResult::new();
        while self.pos < self.data.len()
            invariant
                self.wf(),
                self.data == old(self).data,
                self.data@ == d,
                spec_preamble(d) == Ok::<int, ParseError>(p8),
                spec_sections(d, p8, spec_parse_result_empty()) == spec_sections(
                    d,
                    self.pos as int,
                    result.deep_view(),
                ),
            decreases self.data.len() - self.pos,
        {
            match self.parse_section(&mut result) {
                Ok(u) => u,
                Err(e) => {
                    return Err(e);
                },
            };
        }
        Ok(result)
    }
}

} // verus!
