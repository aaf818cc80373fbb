//! The import and export sections: two-level names with an external-kind
//! tag, and exported fields with an index.

use vstd::prelude::*;
use super::{Parser, ParseError, Type, ResizableLimits, spec_limits, spec_value_type, spec_name};
use super::varint::{spec_varuint32, spec_varuint7, spec_varuint1};

verus! {

/// The kind of an imported or exported entity.
#[derive(Clone, Copy, Debug, PartialEq, Eq, Structural)]
pub enum ExternalKind {
    Func,
    Table,
    Memory,
    Global,
}

/// The kind-specific description of an imported entity: a type index for
/// functions, an element-type byte with limits for tables, limits for
/// memories, and a value type with mutability for globals.
#[derive(Clone, Copy, Debug, PartialEq, Eq)]
pub enum ExternalKindType {
    Func(u32),
    Table(u8, ResizableLimits),
    Memory(ResizableLimits),
    Global(Type, bool),
}

impl DeepView for ExternalKind {
    type V = ExternalKind;

    open spec fn deep_view(&self) -> ExternalKind {
        *self
    }
}

impl DeepView for ExternalKindType {
    type V = ExternalKindType;

    open spec fn deep_view(&self) -> ExternalKindType {
        *self
    }
}

/// One import: the module name, the field name, and the imported
/// entity's kind and description.
#[derive(Clone, Debug, PartialEq, Eq)]
pub struct ImportEntry {
    pub module: String,
    pub field: String,
    pub kind: ExternalKind,
    pub typ: ExternalKindType,
}

/// The mathematical shape of an import.
pub struct ImportEntryV {
    pub module: Seq<char>,
    pub field: Seq<char>,
    pub kind: ExternalKind,
    pub typ: ExternalKindType,
}

impl DeepView for ImportEntry {
    type V = ImportEntryV;

    open spec fn deep_view(&self) -> ImportEntryV {
        ImportEntryV {
            module: self.module@,
            field: self.field@,
            kind: self.kind,
            typ: self.typ,
        }
    }
}

/// One export: the field name, the exported entity's kind, and its index.
#[derive(Clone, Debug, PartialEq, Eq)]
pub struct ExportEntry {
    pub field: String,
    pub kind: ExternalKind,
    pub index: u32,
}

/// The mathematical shape of an export.
pub struct ExportEntryV {
    pub field: Seq<char>,
    pub kind: ExternalKind,
    pub index: u32,
}

impl DeepView for ExportEntry {
    type V = ExportEntryV;

    open spec fn deep_view(&self) -> ExportEntryV {
        ExportEntryV { field: self.field@, kind: self.kind, index: self.index }
    }
}

/// Reading an external-kind tag byte: 0 function, 1 table, 2 memory,
/// 3 global; any other byte is outside the closed set.
pub open spec fn spec_external_kind(d: Seq<u8>, pos: int) -> Result<
    (ExternalKind, int),
    ParseError,
> {
    if pos < 0 || pos >= d.len() {
        Err(ParseError::UnexpectedEof)
    } else {
        let b = d[pos];
        if b == 0 {
            Ok((ExternalKind::Func, pos + 1))
        } else if b == 1 {
            Ok((ExternalKind::Table, pos + 1))
        } else if b == 2 {
            Ok((ExternalKind::Memory, pos + 1))
        } else if b == 3 {
            Ok((ExternalKind::Global, pos + 1))
        } else {
            Err(ParseError::InvalidTypeTag)
        }
    }
}

/// Reading the kind-specific description that follows an external-kind tag.
pub open spec fn spec_external_kind_payload(d: Seq<u8>, pos: int, kind: ExternalKind) -> Result<
    (ExternalKindType, int),
    ParseError,
> {
    match kind {
        ExternalKind::Func => match spec_varuint32(d, pos) {
            Err(e) => Err(e),
            Ok((idx, p)) => Ok((ExternalKindType::Func(idx), p)),
        },
        ExternalKind::Table => match spec_varuint7(d, pos) {
            Err(e) => Err(e),
            Ok((elem, p)) => match spec_limits(d, p) {
                Err(e) => Err(e),
                Ok((l, p2)) => Ok((ExternalKindType::Table(elem, l), p2)),
            },
        },
        ExternalKind::Memory => match spec_limits(d, pos) {
            Err(e) => Err(e),
            Ok((l, p)) => Ok((ExternalKindType::Memory(l), p)),
        },
        ExternalKind::Global => match spec_value_type(d, pos) {
            Err(e) => Err(e),
            Ok((ty, p)) => match spec_varuint1(d, p) {
                Err(e) => Err(e),
                Ok((m, p2)) => Ok((ExternalKindType::Global(ty, m), p2)),
            },
        },
    }
}

/// Reading an external-kind tag together with its description.
pub open spec fn spec_external_kind_and_type(d: Seq<u8>, pos: int) -> Result<
    ((ExternalKind, ExternalKindType), int),
    ParseError,
> {
    match spec_external_kind(d, pos) {
        Err(e) => Err(e),
        Ok((kind, p)) => match spec_external_kind_payload(d, p, kind) {
            Err(e) => Err(e),
            Ok((typ, p2)) => Ok(((kind, typ), p2)),
        },
    }
}

/// Reading one import entry: module name, field name, kind and description.
pub open spec fn spec_import_entry(d: Seq<u8>, pos: int) -> Result<(ImportEntryV, int), ParseError> {
    match spec_name(d, pos) {
        Err(e) => Err(e),
        Ok((module, p)) => match spec_name(d, p) {
            Err(e) => Err(e),
            Ok((field, p2)) => match spec_external_kind_and_type(d, p2) {
                Err(e) => Err(e),
                Ok(((kind, typ), p3)) => Ok((ImportEntryV { module, field, kind, typ }, p3)),
            },
        },
    }
}

/// Reading `n` import entries in sequence.
pub open spec fn spec_import_entries(d: Seq<u8>, pos: int, n: nat) -> Result<
    (Seq<ImportEntryV>, int),
    ParseError,
>
    decreases n,
{
    if n == 0 {
        Ok((Seq::empty(), pos))
    } else {
        match spec_import_entry(d, pos) {
            Err(e) => Err(e),
            Ok((v, p)) => match spec_import_entries(d, p, (n - 1) as nat) {
                Err(e) => Err(e),
                Ok((s, p2)) => Ok((seq![v] + s, p2)),
            },
        }
    }
}

/// Reading the import section: a count, then that many imports.
pub open spec fn spec_import_section(d: Seq<u8>, pos: int) -> Result<
    (Seq<ImportEntryV>, int),
    ParseError,
> {
    match spec_varuint32(d, pos) {
        Err(e) => Err(e),
        Ok((n, p)) => spec_import_entries(d, p, n as nat),
    }
}

/// Reading one export entry: field name, kind tag, and index.
pub open spec fn spec_export_entry(d: Seq<u8>, pos: int) -> Result<(ExportEntryV, int), ParseError> {
    match spec_name(d, pos) {
        Err(e) => Err(e),
        Ok((field, p)) => match spec_external_kind(d, p) {
            Err(e) => Err(e),
            Ok((kind, p2)) => match spec_varuint32(d, p2) {
                Err(e) => Err(e),
                Ok((idx, p3)) => Ok((ExportEntryV { field, kind, index: idx }, p3)),
            },
        },
    }
}

/// Reading `n` export entries in sequence.
pub open spec fn spec_export_entries(d: Seq<u8>, pos: int, n: nat) -> Result<
    (Seq<ExportEntryV>, int),
    ParseError,
>
    decreases n,
{
    if n == 0 {
        Ok((Seq::empty(), pos))
    } else {
        match spec_export_entry(d, pos) {
            Err(e) => Err(e),
            Ok((v, p)) => match spec_export_entries(d, p, (n - 1) as nat) {
                Err(e) => Err(e),
                Ok((s, p2)) => Ok((seq![v] + s, p2)),
            },
        }
    }
}

/// Reading the export section: a count, then that many exports.
pub open spec fn spec_export_section(d: Seq<u8>, pos: int) -> Result<
    (Seq<ExportEntryV>, int),
    ParseError,
> {
    match spec_varuint32(d, pos) {
        Err(e) => Err(e),
        Ok((n, p)) => spec_export_entries(d, p, n as nat),
    }
}

impl Parser {
    /// Reads an external-kind tag byte.
    pub fn read_external_kind(&mut self) -> (r: Result<ExternalKind, ParseError>)
        requires
            old(self).wf(),
        ensures
            final(self).wf(),
            final(self).data == old(self).data,
            old(self).pos <= final(self).pos,
            match spec_external_kind(old(self).data@, old(self).pos as int) {
                Ok((v, p)) => r matches Ok(x) && x == v && final(self).pos == p,
                Err(e) => r matches Err(e2) && e2 == e,
            },
    {
        let b = match self.read_byte() {
            Ok(b) => b,
            Err(e) => {
                return Err(e);
            },
        };
        match b {
            0 => Ok(ExternalKind::Func),
            1 => Ok(ExternalKind::Table),
            2 => Ok(ExternalKind::Memory),
            3 => Ok(ExternalKind::Global),
            _ => Err(ParseError::InvalidTypeTag),
        }
    }

    /// Reads a function import's type index.
    pub fn read_ext_func_type(&mut self) -> (r: Result<ExternalKindType, ParseError>)
        requires
            old(self).wf(),
        ensures
            final(self).wf(),
            final(self).data == old(self).data,
            old(self).pos <= final(self).pos,
            match spec_external_kind_payload(
                old(self).data@,
                old(self).pos as int,
                ExternalKind::Func,
            ) {
                Ok((v, p)) => r matches Ok(x) && x == v && final(self).pos == p,
                Err(e) => r matches Err(e2) && e2 == e,
            },
    {
        match self.read_varuint32() {
            Ok(idx) => Ok(ExternalKindType::Func(idx)),
            Err(e) => Err(e),
        }
    }

    /// Reads a table import's element-type byte and limits.
    pub fn read_ext_table_type(&mut self) -> (r: Result<ExternalKindType, ParseError>)
        requires
            old(self).wf(),
        ensures
            final(self).wf(),
            final(self).data == old(self).data,
            old(self).pos <= final(self).pos,
            match spec_external_kind_payload(
                old(self).data@,
                old(self).pos as int,
                ExternalKind::Table,
            ) {
                Ok((v, p)) => r matches Ok(x) && x == v && final(self).pos == p,
                Err(e) => r matches Err(e2) && e2 == e,
            },
    {
        let elem_type = match self.read_varuint7() {
            Ok(t) => t,
            Err(e) => {
                return Err(e);
            },
        };
        let limits = match self.read_resizable_limits() {
            Ok(l) => l,
            Err(e) => {
                return Err(e);
            },
        };
        Ok(ExternalKindType::Table(elem_type, limits))
    }

    /// Reads a memory import's limits.
    pub fn read_ext_memory_type(&mut self) -> (r: Result<ExternalKindType, ParseError>)
        requires
            old(self).wf(),
        ensures
            final(self).wf(),
            final(self).data == old(self).data,
            old(self).pos <= final(self).pos,
            match spec_external_kind_payload(
                old(self).data@,
                old(self).pos as int,
                ExternalKind::Memory,
            ) {
                Ok((v, p)) => r matches Ok(x) && x == v && final(self).pos == p,
                Err(e) => r matches Err(e2) && e2 == e,
            },
    {
        match self.read_resizable_limits() {
            Ok(l) => Ok(ExternalKindType::Memory(l)),
            Err(e) => Err(e),
        }
    }

    /// Reads a global import's value type and mutability flag.
    pub fn read_ext_global_type(&mut self) -> (r: Result<ExternalKindType, ParseError>)
        requires
            old(self).wf(),
        ensures
            final(self).wf(),
            final(self).data == old(self).data,
            old(self).pos <= final(self).pos,
            match spec_external_kind_payload(
                old(self).data@,
                old(self).pos as int,
                ExternalKind::Global,
            ) {
                Ok((v, p)) => r matches Ok(x) && x == v && final(self).pos == p,
                Err(e) => r matches Err(e2) && e2 == e,
            },
    {
        let content_type = match self.read_value_type() {
            Ok(t) => t,
            Err(e) => {
                return Err(e);
            },
        };
        let mutability = match self.read_varuint1() {
            Ok(m) => m,
            Err(e) => {
                return Err(e);
            },
        };
        Ok(ExternalKindType::Global(content_type, mutability))
    }

    /// Reads an external-kind tag and its kind-specific description.
    pub fn read_external_kind_and_type(&mut self) -> (r: Result<
        (ExternalKind, ExternalKindType),
        ParseError,
    >)
        requires
            old(self).wf(),
        ensures
            final(self).wf(),
            final(self).data == old(self).data,
            old(self).pos <= final(self).pos,
            match spec_external_kind_and_type(old(self).data@, old(self).pos as int) {
                Ok((v, p)) => r matches Ok(x) && x == v && final(self).pos == p,
                Err(e) => r matches Err(e2) && e2 == e,
            },
    {
        let kind = match self.read_external_kind() {
            Ok(k) => k,
            Err(e) => {
                return Err(e);
            },
        };
        let typ = match kind {
            ExternalKind::Func => self.read_ext_func_type(),
            ExternalKind::Table => self.read_ext_table_type(),
            ExternalKind::Memory => self.read_ext_memory_type(),
            ExternalKind::Global => self.read_ext_global_type(),
        };
        match typ {
            Ok(t) => Ok((kind, t)),
            Err(e) => Err(e),
        }
    }

    /// Reads one import entry.
    pub fn read_import_entry(&mut self) -> (r: Result<ImportEntry, ParseError>)
        requires
            old(self).wf(),
        ensures
            final(self).wf(),
            final(self).data == old(self).data,
            old(self).pos <= final(self).pos,
            match spec_import_entry(old(self).data@, old(self).pos as int) {
                Ok((v, p)) => r matches Ok(x) && x.deep_view() == v && final(self).pos == p,
                Err(e) => r matches Err(e2) && e2 == e,
            },
    {
        let module = match self.read_utf8_str_vu32() {
            Ok(s) => s,
            Err(e) => {
                return Err(e);
            },
        };
        let field = match self.read_utf8_str_vu32() {
            Ok(s) => s,
            Err(e) => {
                return Err(e);
            },
        };
        let (kind, typ) = match self.read_external_kind_and_type() {
            Ok(kt) => kt,
            Err(e) => {
                return Err(e);
            },
        };
        Ok(ImportEntry { module, field, kind, typ })
    }

    /// Reads one export entry.
    pub fn read_export_entry(&mut self) -> (r: Result<ExportEntry, ParseError>)
        requires
            old(self).wf(),
        ensures
            final(self).wf(),
            final(self).data == old(self).data,
            old(self).pos <= final(self).pos,
            match spec_export_entry(old(self).data@, old(self).pos as int) {
                Ok((v, p)) => r matches Ok(x) && x.deep_view() == v && final(self).pos == p,
                Err(e) => r matches Err(e2) && e2 == e,
            },
    {
        let field = match self.read_utf8_str_vu32() {
            Ok(s) => s,
            Err(e) => {
                return Err(e);
            },
        };
        let kind = match self.read_external_kind() {
            Ok(k) => k,
            Err(e) => {
                return Err(e);
            },
        };
        let index = match self.read_varuint32() {
            Ok(i) => i,
            Err(e) => {
                return Err(e);
            },
        };
        Ok(ExportEntry { field, kind, index })
    }

    /// Reads the import section's list of imports.
    #[verifier::rlimit(50)]
    pub fn parse_import_section(&mut self, payload_len: u32) -> (r: Result<Vec<ImportEntry>, ParseError>)
        requires
            old(self).wf(),
        ensures
            final(self).wf(),
            final(self).data == old(self).data,
            old(self).pos <= final(self).pos,
            match spec_import_section(old(self).data@, old(self).pos as int) {
                Ok((s, p)) => r matches Ok(v) && v.deep_view() == s && final(self).pos == p,
                Err(e) => r matches Err(e2) && e2 == e,
            },
    {
        let n = match self.read_varuint32() {
            Ok(v) => v,
            Err(e) => {
                return Err(e);
            },
        };
        let ghost d = self.data@;
        let ghost p0 = self.pos as int;
        let mut entries: Vec<ImportEntry> = Vec::new();
        let mut i: u32 = 0;
        proof {
            assert(entries.deep_view() =~= Seq::<ImportEntryV>::empty());
            assert(entries.deep_view() + Seq::<ImportEntryV>::empty() =~= entries.deep_view());
        }
        while i < n
            invariant
                self.wf(),
                self.data == old(self).data,
                self.data@ == d,
                old(self).pos <= self.pos,
                i <= n,
                spec_varuint32(d, old(self).pos as int) == Ok::<(u32, int), ParseError>((n, p0)),
                match spec_import_entries(d, self.pos as int, (n - i) as nat) {
                    Ok((s, p)) => spec_import_entries(d, p0, n as nat) == Ok::<
                        (Seq<ImportEntryV>, int),
                        ParseError,
                    >((entries.deep_view() + s, p)),
                    Err(e) => spec_import_entries(d, p0, n as nat) == Err::<
                        (Seq<ImportEntryV>, int),
                        ParseError,
                    >(e),
                },
            decreases n - i,
        {
            let ghost prev = entries.deep_view();
            let entry = match self.read_import_entry() {
                Ok(x) => x,
                Err(e) => {
                    return Err(e);
                },
            };
            entries.push(entry);
            i = i + 1;
            proof {
                assert(entries.deep_view() =~= prev.push(entry.deep_view()));
                match spec_import_entries(d, self.pos as int, (n - i) as nat) {
                    Ok((s, p)) => {
                        assert(prev + (seq![entry.deep_view()] + s) =~= prev.push(
                            entry.deep_view(),
                        ) + s);
                    },
                    Err(e) => {},
                }
            }
        }
        proof {
            assert(entries.deep_view() + Seq::<ImportEntryV>::empty() =~= entries.deep_view());
        }
        Ok(entries)
    }

    /// Reads the export section's list of exports.
    #[verifier::rlimit(50)]
    pub fn parse_export_section(&mut self, payload_len: u32) -> (r: Result<Vec<ExportEntry>, ParseError>)
        requires
            old(self).wf(),
        ensures
            final(self).wf(),
            final(self).data == old(self).data,
            old(self).pos <= final(self).pos,
            match spec_export_section(old(self).data@, old(self).pos as int) {
                Ok((s, p)) => r matches Ok(v) && v.deep_view() == s && final(self).pos == p,
                Err(e) => r matches Err(e2) && e2 == e,
            },
    {
        let n = match self.read_varuint32() {
            Ok(v) => v,
            Err(e) => {
                return Err(e);
            },
        };
        let ghost d = self.data@;
        let ghost p0 = self.pos as int;
        let mut entries: Vec<ExportEntry> = Vec::new();
        let mut i: u32 = 0;
        proof {
            assert(entries.deep_view() =~= Seq::<ExportEntryV>::empty());
            assert(entries.deep_view() + Seq::<ExportEntryV>::empty() =~= entries.deep_view());
        }
        while i < n
            invariant
                self.wf(),
                self.data == old(self).data,
                self.data@ == d,
                old(self).pos <= self.pos,
                i <= n,
                spec_varuint32(d, old(self).pos as int) == Ok::<(u32, int), ParseError>((n, p0)),
                match spec_export_entries(d, self.pos as int, (n - i) as nat) {
                    Ok((s, p)) => spec_export_entries(d, p0, n as nat) == Ok::<
                        (Seq<ExportEntryV>, int),
                        ParseError,
                    >((entries.deep_view() + s, p)),
                    Err(e) => spec_export_entries(d, p0, n as nat) == Err::<
                        (Seq<ExportEntryV>, int),
                        ParseError,
                    >(e),
                },
            decreases n - i,
        {
            let ghost prev = entries.deep_view();
            let entry = match self.read_export_entry() {
                Ok(x) => x,
                Err(e) => {
                    return Err(e);
                },
            };
            entries.push(entry);
            i = i + 1;
            proof {
                assert(entries.deep_view() =~= prev.push(entry.deep_view()));
                match spec_export_entries(d, self.pos as int, (n - i) as nat) {
                    Ok((s, p)) => {
                        assert(prev + (seq![entry.deep_view()] + s) =~= prev.push(
                            entry.deep_view(),
                        ) + s);
                    },
                    Err(e) => {},
                }
            }
        }
        proof {
            assert(entries.deep_view() + Seq::<ExportEntryV>::empty() =~= entries.deep_view());
        }
        Ok(entries)
    }
}

} // verus!
