//! Custom sections: the structured "name" sub-format, and the raw capture
//! of any other custom section. The name sub-format holds module, function
//! and local subsections, each at most once and in that order relative to
//! one another.

use vstd::prelude::*;
use super::{Parser, ParseError, spec_name, spec_bytes};
use super::varint::{spec_varuint32, spec_varuint7};

verus! {

/// An index paired with a name.
#[derive(Clone, Debug, PartialEq, Eq)]
pub struct Naming {
    pub index: u32,
    pub name: String,
}

/// The mathematical shape of a naming.
pub struct NamingV {
    pub index: u32,
    pub name: Seq<char>,
}

impl DeepView for Naming {
    type V = NamingV;

    open spec fn deep_view(&self) -> NamingV {
        NamingV { index: self.index, name: self.name@ }
    }
}

impl Naming {
    /// Pairs an index with a name.
    pub fn new(idx: u32, n: String) -> (r: Naming)
        ensures
            r.index == idx,
            r.name == n,
    {
        Naming { index: idx, name: n }
    }
}

/// The tag of a name subsection: the three structured kinds, or unknown.
#[derive(Clone, Copy, Debug, PartialEq, Eq, Structural)]
pub enum NameType {
    Unknown,
    Module,
    Function,
    Local,
}

impl DeepView for NameType {
    type V = NameType;

    open spec fn deep_view(&self) -> NameType {
        *self
    }
}

/// The subsection kind of a tag byte: 0 module, 1 function, 2 local,
/// anything else unknown.
pub open spec fn spec_name_type_from_int(tag: u8) -> NameType {
    if tag == 0 {
        NameType::Module
    } else if tag == 1 {
        NameType::Function
    } else if tag == 2 {
        NameType::Local
    } else {
        NameType::Unknown
    }
}

impl NameType {
    /// Decodes a subsection tag; unrecognized tags map to `Unknown`.
    pub fn from_int(tag: u8) -> (r: NameType)
        ensures
            r == spec_name_type_from_int(tag),
    {
        match tag {
            0 => NameType::Module,
            1 => NameType::Function,
            2 => NameType::Local,
            _ => NameType::Unknown,
        }
    }
}

/// The decoded name custom section: an optional module name, an optional
/// function-name map, optional per-function local-name maps, and the
/// unrecognized subsections kept as raw bytes.
#[derive(Clone, Debug, PartialEq, Eq)]
pub struct Namings {
    pub module: Option<String>,
    pub functions: Option<Vec<Naming>>,
    pub locales: Option<Vec<(u32, Vec<Naming>)>>,
    pub others: Vec<(NameType, Vec<u8>)>,
}

/// The mathematical shape of a decoded name custom section.
#[verifier::ext_equal]
pub struct NamingsV {
    pub module: Option<Seq<char>>,
    pub functions: Option<Seq<NamingV>>,
    pub locales: Option<Seq<(u32, Seq<NamingV>)>>,
    pub others: Seq<(NameType, Seq<u8>)>,
}

impl DeepView for Namings {
    type V = NamingsV;

    open spec fn deep_view(&self) -> NamingsV {
        NamingsV {
            module: self.module.deep_view(),
            functions: self.functions.deep_view(),
            locales: self.locales.deep_view(),
            others: self.others.deep_view(),
        }
    }
}

/// A custom section other than the name section: its name and raw payload.
#[derive(Clone, Debug, PartialEq, Eq)]
pub struct CustomSection(pub String, pub Vec<u8>);

/// The mathematical shape of a raw custom section.
pub struct CustomSectionV(pub Seq<char>, pub Seq<u8>);

impl DeepView for CustomSection {
    type V = CustomSectionV;

    open spec fn deep_view(&self) -> CustomSectionV {
        CustomSectionV(self.0@, self.1.deep_view())
    }
}

/// The state of a name section before any subsection is read.
pub open spec fn spec_namings_empty() -> NamingsV {
    NamingsV { module: None, functions: None, locales: None, others: Seq::empty() }
}

/// Reading one index-name pair.
pub open spec fn spec_naming(d: Seq<u8>, pos: int) -> Result<(NamingV, int), ParseError> {
    match spec_varuint32(d, pos) {
        Err(e) => Err(e),
        Ok((index, p)) => match spec_name(d, p) {
            Err(e) => Err(e),
            Ok((nm, p2)) => Ok((NamingV { index, name: nm }, p2)),
        },
    }
}

/// Reading `n` index-name pairs in sequence.
pub open spec fn spec_namings(d: Seq<u8>, pos: int, n: nat) -> Result<
    (Seq<NamingV>, int),
    ParseError,
>
    decreases n,
{
    if n == 0 {
        Ok((Seq::empty(), pos))
    } else {
        match spec_naming(d, pos) {
            Err(e) => Err(e),
            Ok((v, p)) => match spec_namings(d, p, (n - 1) as nat) {
                Err(e) => Err(e),
                Ok((s, p2)) => Ok((seq![v] + s, p2)),
            },
        }
    }
}

/// Reading a count-prefixed index-name map.
pub open spec fn spec_name_map(d: Seq<u8>, pos: int) -> Result<(Seq<NamingV>, int), ParseError> {
    match spec_varuint32(d, pos) {
        Err(e) => Err(e),
        Ok((n, p)) => spec_namings(d, p, n as nat),
    }
}

/// Reading one local-name entry: a function index and its name map.
pub open spec fn spec_local_naming(d: Seq<u8>, pos: int) -> Result<
    ((u32, Seq<NamingV>), int),
    ParseError,
> {
    match spec_varuint32(d, pos) {
        Err(e) => Err(e),
        Ok((index, p)) => match spec_name_map(d, p) {
            Err(e) => Err(e),
            Ok((m, p2)) => Ok(((index, m), p2)),
        },
    }
}

/// Reading `n` local-name entries in sequence.
pub open spec fn spec_local_namings(d: Seq<u8>, pos: int, n: nat) -> Result<
    (Seq<(u32, Seq<NamingV>)>, int),
    ParseError,
>
    decreases n,
{
    if n == 0 {
        Ok((Seq::empty(), pos))
    } else {
        match spec_local_naming(d, pos) {
            Err(e) => Err(e),
            Ok((v, p)) => match spec_local_namings(d, p, (n - 1) as nat) {
                Err(e) => Err(e),
                Ok((s, p2)) => Ok((seq![v] + s, p2)),
            },
        }
    }
}

/// Reading a count-prefixed list of local-name entries.
pub open spec fn spec_local_name_map(d: Seq<u8>, pos: int) -> Result<
    (Seq<(u32, Seq<NamingV>)>, int),
    ParseError,
> {
    match spec_varuint32(d, pos) {
        Err(e) => Err(e),
        Ok((n, p)) => spec_local_namings(d, p, n as nat),
    }
}

/// A sequence of index-name pairs never moves the cursor backwards.
pub proof fn lemma_spec_namings_mono(d: Seq<u8>, pos: int, n: nat)
    ensures
        spec_namings(d, pos, n) matches Ok(sp) ==> sp.1 >= pos,
    decreases n,
{
    if n > 0 {
        match spec_naming(d, pos) {
            Err(e) => {},
            Ok((v, p)) => {
                lemma_spec_namings_mono(d, p, (n - 1) as nat);
            },
        }
    }
}

/// A sequence of local-name entries never moves the cursor backwards.
pub proof fn lemma_spec_local_namings_mono(d: Seq<u8>, pos: int, n: nat)
    ensures
        spec_local_namings(d, pos, n) matches Ok(sp) ==> sp.1 >= pos,
    decreases n,
{
    if n > 0 {
        match spec_local_naming(d, pos) {
            Err(e) => {},
            Ok((v, p)) => {
                lemma_spec_local_naming_mono(d, pos);
                lemma_spec_local_namings_mono(d, p, (n - 1) as nat);
            },
        }
    }
}

/// One local-name entry never moves the cursor backwards.
proof fn lemma_spec_local_naming_mono(d: Seq<u8>, pos: int)
    ensures
        spec_local_naming(d, pos) matches Ok(vp) ==> vp.1 >= pos,
{
    match spec_varuint32(d, pos) {
        Err(e) => {},
        Ok((index, p)) => {
            match spec_varuint32(d, p) {
                Err(e) => {},
                Ok((n, p2)) => {
                    lemma_spec_namings_mono(d, p2, n as nat);
                },
            }
        },
    }
}

/// Scanning name subsections from `pos` to `end`, threading the state of
/// which structured subsections were already seen. A module subsection
/// after any structured subsection, a function subsection after a
/// function or local one, or a local subsection after a local one is a
/// `DuplicateOrMisorderedNameSubsection` failure: each structured kind
/// appears at most once, in module-function-local order.
pub open spec fn spec_name_subsections(d: Seq<u8>, pos: int, end: int, st: NamingsV) -> Result<
    (NamingsV, int),
    ParseError,
>
    decreases end - pos,
    via spec_name_subsections_decreases
{
    if pos >= end {
        Ok((st, pos))
    } else {
        match spec_varuint7(d, pos) {
            Err(e) => Err(e),
            Ok((tag, p1)) => match spec_varuint32(d, p1) {
                Err(e) => Err(e),
                Ok((sub_len, p2)) => match spec_name_type_from_int(tag) {
                    NameType::Module => if st.module is Some || st.functions is Some
                        || st.locales is Some {
                        Err(ParseError::DuplicateOrMisorderedNameSubsection)
                    } else {
                        match spec_name(d, p2) {
                            Err(e) => Err(e),
                            Ok((nm, p3)) => {
                                let st2 = NamingsV { module: Some(nm), ..st };
                                if p3 >= end {
                                    Ok((st2, p3))
                                } else {
                                    spec_name_subsections(d, p3, end, st2)
                                }
                            },
                        }
                    },
                    NameType::Function => if st.functions is Some || st.locales is Some {
                        Err(ParseError::DuplicateOrMisorderedNameSubsection)
                    } else {
                        match spec_name_map(d, p2) {
                            Err(e) => Err(e),
                            Ok((m, p3)) => {
                                let st2 = NamingsV { functions: Some(m), ..st };
                                if p3 >= end {
                                    Ok((st2, p3))
                                } else {
                                    spec_name_subsections(d, p3, end, st2)
                                }
                            },
                        }
                    },
                    NameType::Local => if st.locales is Some {
                        Err(ParseError::DuplicateOrMisorderedNameSubsection)
                    } else {
                        match spec_local_name_map(d, p2) {
                            Err(e) => Err(e),
                            Ok((ls, p3)) => {
                                let st2 = NamingsV { locales: Some(ls), ..st };
                                if p3 >= end {
                                    Ok((st2, p3))
                                } else {
                                    spec_name_subsections(d, p3, end, st2)
                                }
                            },
                        }
                    },
                    NameType::Unknown => match spec_bytes(d, p2, sub_len as nat) {
                        Err(e) => Err(e),
                        Ok((payload, p3)) => {
                            let st2 = NamingsV {
                                others: st.others.push((spec_name_type_from_int(tag), payload)),
                                ..st
                            };
                            if p3 >= end {
                                Ok((st2, p3))
                            } else {
                                spec_name_subsections(d, p3, end, st2)
                            }
                        },
                    },
                },
            },
        }
    }
}

#[via_fn]
proof fn spec_name_subsections_decreases(d: Seq<u8>, pos: int, end: int, st: NamingsV) {
    if pos < end {
        match spec_varuint7(d, pos) {
            Err(e) => {},
            Ok((tag, p1)) => {
                match spec_varuint32(d, p1) {
                    Err(e) => {},
                    Ok((sub_len, p2)) => {
                        match spec_name_map(d, p2) {
                            Err(e) => {},
                            Ok((m, p3)) => {
                                match spec_varuint32(d, p2) {
                                    Err(e) => {},
                                    Ok((n, pc)) => {
                                        lemma_spec_namings_mono(d, pc, n as nat);
                                    },
                                }
                            },
                        }
                        match spec_varuint32(d, p2) {
                            Err(e) => {},
                            Ok((n, p2b)) => {
                                lemma_spec_local_namings_mono(d, p2b, n as nat);
                            },
                        }
                    },
                }
            },
        }
    }
}

/// Name-section ordering: once a local subsection was seen, a function
/// subsection fails with `DuplicateOrMisorderedNameSubsection` — so a
/// local sub-tag standing before a function sub-tag dooms the scan — and
/// once a module subsection was seen, a second module subsection fails
/// the same way.
pub proof fn lemma_name_subsection_order(d: Seq<u8>, pos: int, end: int, st: NamingsV)
    ensures
        (pos < end && (spec_varuint7(d, pos) matches Ok((tag, p1))
            && (spec_name_type_from_int(tag) == NameType::Function && (spec_varuint32(d, p1) is Ok
            && st.locales is Some)))) ==> spec_name_subsections(d, pos, end, st) == Err::<
            (NamingsV, int),
            ParseError,
        >(ParseError::DuplicateOrMisorderedNameSubsection),
        (pos < end && (spec_varuint7(d, pos) matches Ok((tag, p1))
            && (spec_name_type_from_int(tag) == NameType::Module && (spec_varuint32(d, p1) is Ok
            && st.module is Some)))) ==> spec_name_subsections(d, pos, end, st) == Err::<
            (NamingsV, int),
            ParseError,
        >(ParseError::DuplicateOrMisorderedNameSubsection),
{
}

/// Reading the name custom section: a forward scan of subsections over
/// exactly the section's payload span.
pub open spec fn spec_name_custom_section(d: Seq<u8>, pos: int, payload_len: u32) -> Result<
    (NamingsV, int),
    ParseError,
> {
    spec_name_subsections(d, pos, pos + payload_len, spec_namings_empty())
}

/// Reading a custom section other than the name section: its whole
/// payload, kept raw under the section's name.
pub open spec fn spec_custom_section(
    d: Seq<u8>,
    pos: int,
    payload_len: u32,
    nm: Seq<char>,
) -> Result<(CustomSectionV, int), ParseError> {
    match spec_bytes(d, pos, payload_len as nat) {
        Err(e) => Err(e),
        Ok((payload, p)) => Ok((CustomSectionV(nm, payload), p)),
    }
}

impl Parser {
    /// Reads one index-name pair.
    pub fn read_naming(&mut self) -> (r: Result<Naming, ParseError>)
        requires
            old(self).wf(),
        ensures
            final(self).wf(),
            final(self).data == old(self).data,
            old(self).pos <= final(self).pos,
            match spec_naming(old(self).data@, old(self).pos as int) {
                Ok((v, p)) => r matches Ok(x) && x.deep_view() == v && final(self).pos == p,
                Err(e) => r matches Err(e2) && e2 == e,
            },
    {
        let index = match self.read_varuint32() {
            Ok(v) => v,
            Err(e) => {
                return Err(e);
            },
        };
        let name = match self.read_utf8_str_vu32() {
            Ok(s) => s,
            Err(e) => {
                return Err(e);
            },
        };
        Ok(Naming::new(index, name))
    }

    /// Reads a count-prefixed index-name map.
    pub fn read_name_map(&mut self) -> (r: Result<Vec<Naming>, ParseError>)
        requires
            old(self).wf(),
        ensures
            final(self).wf(),
            final(self).data == old(self).data,
            old(self).pos <= final(self).pos,
            match spec_name_map(old(self).data@, old(self).pos as int) {
                Ok((s, p)) => r matches Ok(v) && v.deep_view() == s && final(self).pos == p,
                Err(e) => r matches Err(e2) && e2 == e,
            },
    {
        let n = match self.read_varuint32() {
            Ok(v) => v,
            Err(e) => {
                return Err(e);
            },
        };
        let ghost d = self.data@;
        let ghost p0 = self.pos as int;
        let mut entries: Vec<Naming> = Vec::new();
        let mut i: u32 = 0;
        proof {
            assert(entries.deep_view() =~= Seq::<NamingV>::empty());
        }
        while i < n
            invariant
                self.wf(),
                self.data == old(self).data,
                self.data@ == d,
                old(self).pos <= self.pos,
                i <= n,
                spec_varuint32(d, old(self).pos as int) == Ok::<(u32, int), ParseError>((n, p0)),
                match spec_namings(d, self.pos as int, (n - i) as nat) {
                    Ok((s, p)) => spec_namings(d, p0, n as nat) == Ok::<
                        (Seq<NamingV>, int),
                        ParseError,
                    >((entries.deep_view() + s, p)),
                    Err(e) => spec_namings(d, p0, n as nat) == Err::<
                        (Seq<NamingV>, int),
                        ParseError,
                    >(e),
                },
            decreases n - i,
        {
            let ghost prev = entries.deep_view();
            let entry = match self.read_naming() {
                Ok(x) => x,
                Err(e) => {
                    return Err(e);
                },
            };
            entries.push(entry);
            i = i + 1;
            proof {
                assert(entries.deep_view() =~= prev.push(entry.deep_view()));
                match spec_namings(d, self.pos as int, (n - i) as nat) {
                    Ok((s, p)) => {
                        assert(prev + (seq![entry.deep_view()] + s) =~= prev.push(
                            entry.deep_view(),
                        ) + s);
                    },
                    Err(e) => {},
                }
            }
        }
        proof {
            assert(entries.deep_view() + Seq::<NamingV>::empty() =~= entries.deep_view());
        }
        Ok(entries)
    }

    /// Reads one local-name entry: a function index and its name map.
    fn read_local_naming(&mut self) -> (r: Result<(u32, Vec<Naming>), ParseError>)
        requires
            old(self).wf(),
        ensures
            final(self).wf(),
            final(self).data == old(self).data,
            old(self).pos <= final(self).pos,
            match spec_local_naming(old(self).data@, old(self).pos as int) {
                Ok((v, p)) => r matches Ok(x) && x.deep_view() == v && final(self).pos == p,
                Err(e) => r matches Err(e2) && e2 == e,
            },
    {
        let index = match self.read_varuint32() {
            Ok(v) => v,
            Err(e) => {
                return Err(e);
            },
        };
        let m = match self.read_name_map() {
            Ok(m) => m,
            Err(e) => {
                return Err(e);
            },
        };
        Ok((index, m))
    }

    /// Reads a count-prefixed list of local-name entries.
    fn read_local_name_map(&mut self) -> (r: Result<Vec<(u32, Vec<Naming>)>, ParseError>)
        requires
            old(self).wf(),
        ensures
            final(self).wf(),
            final(self).data == old(self).data,
            old(self).pos <= final(self).pos,
            match spec_local_name_map(old(self).data@, old(self).pos as int) {
                Ok((s, p)) => r matches Ok(v) && v.deep_view() == s && final(self).pos == p,
                Err(e) => r matches Err(e2) && e2 == e,
            },
    {
        let n = match self.read_varuint32() {
            Ok(v) => v,
            Err(e) => {
                return Err(e);
            },
        };
        let ghost d = self.data@;
        let ghost p0 = self.pos as int;
        let mut entries: Vec<(u32, Vec<Naming>)> = Vec::new();
        let mut i: u32 = 0;
        proof {
            assert(entries.deep_view() =~= Seq::<(u32, Seq<NamingV>)>::empty());
        }
        while i < n
            invariant
                self.wf(),
                self.data == old(self).data,
                self.data@ == d,
                old(self).pos <= self.pos,
                i <= n,
                spec_varuint32(d, old(self).pos as int) == Ok::<(u32, int), ParseError>((n, p0)),
                match spec_local_namings(d, self.pos as int, (n - i) as nat) {
                    Ok((s, p)) => spec_local_namings(d, p0, n as nat) == Ok::<
                        (Seq<(u32, Seq<NamingV>)>, int),
                        ParseError,
                    >((entries.deep_view() + s, p)),
                    Err(e) => spec_local_namings(d, p0, n as nat) == Err::<
                        (Seq<(u32, Seq<NamingV>)>, int),
                        ParseError,
                    >(e),
                },
            decreases n - i,
        {
            let ghost prev = entries.deep_view();
            let entry = match self.read_local_naming() {
                Ok(x) => x,
                Err(e) => {
                    return Err(e);
                },
            };
            entries.push(entry);
            i = i + 1;
            proof {
                assert(entries.deep_view() =~= prev.push(entry.deep_view()));
                match spec_local_namings(d, self.pos as int, (n - i) as nat) {
                    Ok((s, p)) => {
                        assert(prev + (seq![entry.deep_view()] + s) =~= prev.push(
                            entry.deep_view(),
                        ) + s);
                    },
                    Err(e) => {},
                }
            }
        }
        proof {
            assert(entries.deep_view() + Seq::<(u32, Seq<NamingV>)>::empty()
                =~= entries.deep_view());
        }
        Ok(entries)
    }

    /// Reads the name custom section: scans subsections across exactly the
    /// declared payload span, enforcing that the module, function and
    /// local subsections appear at most once and in that order.
    pub fn parse_name_custom_section(&mut self, payload_len: u32) -> (r: Result<
        Namings,
        ParseError,
    >)
        requires
            old(self).wf(),
        ensures
            final(self).wf(),
            final(self).data == old(self).data,
            old(self).pos <= final(self).pos,
            match spec_name_custom_section(old(self).data@, old(self).pos as int, payload_len) {
                Ok((v, p)) => r matches Ok(x) && x.deep_view() == v && final(self).pos == p,
                Err(e) => r matches Err(e2) && e2 == e,
            },
    {
        let init_offset = self.get_current_offset();
        let ghost d = self.data@;
        let ghost p0 = self.pos as int;
        let ghost end = p0 + payload_len;
        let mut module: Option<String> = None;
        let mut functions: Option<Vec<Naming>> = None;
        let mut locales: Option<Vec<(u32, Vec<Naming>)>> = None;
        let mut others: Vec<(NameType, Vec<u8>)> = Vec::new();
        proof {
            let st0 = NamingsV {
                module: module.deep_view(),
                functions: functions.deep_view(),
                locales: locales.deep_view(),
                others: others.deep_view(),
            };
            assert(st0 =~= spec_namings_empty());
        }
        while self.pos - init_offset < payload_len as usize
            invariant
                self.wf(),
                self.data == old(self).data,
                self.data@ == d,
                old(self).pos <= self.pos,
                init_offset == p0,
                p0 == old(self).pos,
                end == p0 + payload_len,
                spec_name_subsections(d, p0, end, spec_namings_empty())
                    == spec_name_subsections(
                    d,
                    self.pos as int,
                    end,
                    NamingsV {
                        module: module.deep_view(),
                        functions: functions.deep_view(),
                        locales: locales.deep_view(),
                        others: others.deep_view(),
                    },
                ),
            decreases (if self.pos as int <= end {
                end - self.pos
            } else {
                0
            }),
        {
            let ghost st = NamingsV {
                module: module.deep_view(),
                functions: functions.deep_view(),
                locales: locales.deep_view(),
                others: others.deep_view(),
            };
            let tag = match self.read_varuint7() {
                Ok(t) => t,
                Err(e) => {
                    return Err(e);
                },
            };
            let name_type = NameType::from_int(tag);
            let name_payload_len = match self.read_varuint32() {
                Ok(v) => v,
                Err(e) => {
                    return Err(e);
                },
            };
            match name_type {
                NameType::Module => {
                    if module.is_some() || functions.is_some() || locales.is_some() {
                        return Err(ParseError::DuplicateOrMisorderedNameSubsection);
                    }
                    let name = match self.read_utf8_str_vu32() {
                        Ok(s) => s,
                        Err(e) => {
                            return Err(e);
                        },
                    };
                    module = Some(name);
                    proof {
                        let st2 = NamingsV {
                            module: module.deep_view(),
                            functions: functions.deep_view(),
                            locales: locales.deep_view(),
                            others: others.deep_view(),
                        };
                        assert(st2 =~= NamingsV { module: module.deep_view(), ..st });
                    }
                },
                NameType::Function => {
                    if functions.is_some() || locales.is_some() {
                        return Err(ParseError::DuplicateOrMisorderedNameSubsection);
                    }
                    let m = match self.read_name_map() {
                        Ok(m) => m,
                        Err(e) => {
                            return Err(e);
                        },
                    };
                    functions = Some(m);
                    proof {
                        let st2 = NamingsV {
                            module: module.deep_view(),
                            functions: functions.deep_view(),
                            locales: locales.deep_view(),
                            others: others.deep_view(),
                        };
                        assert(st2 =~= NamingsV { functions: functions.deep_view(), ..st });
                    }
                },
                NameType::Local => {
                    if locales.is_some() {
                        return Err(ParseError::DuplicateOrMisorderedNameSubsection);
                    }
                    let ls = match self.read_local_name_map() {
                        Ok(ls) => ls,
                        Err(e) => {
                            return Err(e);
                        },
                    };
                    locales = Some(ls);
                    proof {
                        let st2 = NamingsV {
                            module: module.deep_view(),
                            functions: functions.deep_view(),
                            locales: locales.deep_view(),
                            others: others.deep_view(),
                        };
                        assert(st2 =~= NamingsV { locales: locales.deep_view(), ..st });
                    }
                },
                NameType::Unknown => {
                    let payload = match self.read_bytes(name_payload_len) {
                        Ok(b) => b,
                        Err(e) => {
                            return Err(e);
                        },
                    };
                    others.push((name_type, payload));
                    proof {
                        let st2 = NamingsV {
                            module: module.deep_view(),
                            functions: functions.deep_view(),
                            locales: locales.deep_view(),
                            others: others.deep_view(),
                        };
                        assert(others.deep_view() =~= st.others.push(
                            (spec_name_type_from_int(tag), payload.deep_view()),
                        ));
                        assert(payload.deep_view() =~= payload@);
                        assert(st2 =~= NamingsV { others: others.deep_view(), ..st });
                    }
                },
            }
        }
        Ok(Namings { module, functions, locales, others })
    }

    /// Reads a custom section other than the name section: its whole
    /// payload, raw.
    pub fn parse_custom_section(&mut self, name: &str, payload_len: u32) -> (r: Result<
        CustomSection,
        ParseError,
    >)
        requires
            old(self).wf(),
        ensures
            final(self).wf(),
            final(self).data == old(self).data,
            old(self).pos <= final(self).pos,
            match spec_custom_section(old(self).data@, old(self).pos as int, payload_len, name@) {
                Ok((v, p)) => r matches Ok(x) && x.deep_view() == v && final(self).pos == p,
                Err(e) => r matches Err(e2) && e2 == e,
            },
    {
        let payload = match self.read_bytes(payload_len) {
            Ok(b) => b,
            Err(e) => {
                return Err(e);
            },
        };
        proof {
            assert(payload.deep_view() =~= payload@);
        }
        Ok(CustomSection(name.to_owned(), payload))
    }
}

} // verus!
