//! The table section: a list of table descriptions, each an element
//! type and resizable limits.

use vstd::prelude::*;
use super::{Parser, ParseError, Type, ResizableLimits, spec_limits, spec_elem_type_tag};
use super::varint::{spec_varuint32, spec_varuint7};

verus! {

/// A table description: its element type and resizable limits.
#[derive(Clone, Copy, Debug, PartialEq, Eq)]
pub struct TableEntry {
    pub typ: Type,
    pub limits: ResizableLimits,
}

impl DeepView for TableEntry {
    type V = TableEntry;

    open spec fn deep_view(&self) -> TableEntry {
        *self
    }
}

/// Reading one table description: an element-type tag, then limits.
pub open spec fn spec_table_type(d: Seq<u8>, pos: int) -> Result<(TableEntry, int), ParseError> {
    match spec_varuint7(d, pos) {
        Err(e) => Err(e),
        Ok((tag, p)) => match spec_elem_type_tag(tag) {
            Err(e) => Err(e),
            Ok(ty) => match spec_limits(d, p) {
                Err(e) => Err(e),
                Ok((l, p2)) => Ok((TableEntry { typ: ty, limits: l }, p2)),
            },
        },
    }
}

/// Reading `n` table descriptions in sequence.
pub open spec fn spec_table_types(d: Seq<u8>, pos: int, n: nat) -> Result<
    (Seq<TableEntry>, int),
    ParseError,
>
    decreases n,
{
    if n == 0 {
        Ok((Seq::empty(), pos))
    } else {
        match spec_table_type(d, pos) {
            Err(e) => Err(e),
            Ok((v, p)) => match spec_table_types(d, p, (n - 1) as nat) {
                Err(e) => Err(e),
                Ok((s, p2)) => Ok((seq![v] + s, p2)),
            },
        }
    }
}

/// Reading the table section: a count, then that many descriptions.
pub open spec fn spec_table_section(d: Seq<u8>, pos: int) -> Result<(Seq<TableEntry>, int), ParseError> {
    match spec_varuint32(d, pos) {
        Err(e) => Err(e),
        Ok((n, p)) => spec_table_types(d, p, n as nat),
    }
}

impl Parser {
    /// Reads one table description.
    pub fn read_table_type(&mut self) -> (r: Result<TableEntry, ParseError>)
        requires
            old(self).wf(),
        ensures
            final(self).wf(),
            final(self).data == old(self).data,
            old(self).pos <= final(self).pos,
            match spec_table_type(old(self).data@, old(self).pos as int) {
                Ok((v, p)) => r matches Ok(x) && x == v && final(self).pos == p,
                Err(e) => r matches Err(e2) && e2 == e,
            },
    {
        let tag = match self.read_varuint7() {
            Ok(t) => t,
            Err(e) => {
                return Err(e);
            },
        };
        let typ = match Type::elem_type(tag) {
            Ok(t) => t,
            Err(e) => {
                return Err(e);
            },
        };
        let limits = match self.read_resizable_limits() {
            Ok(l) => l,
            Err(e) => {
                return Err(e);
            },
        };
        Ok(TableEntry { typ, limits })
    }

    /// Reads the table section's list of table descriptions.
    pub fn parse_table_section(&mut self, payload_len: u32) -> (r: Result<Vec<TableEntry>, ParseError>)
        requires
            old(self).wf(),
        ensures
            final(self).wf(),
            final(self).data == old(self).data,
            old(self).pos <= final(self).pos,
            match spec_table_section(old(self).data@, old(self).pos as int) {
                Ok((s, p)) => r matches Ok(v) && v.deep_view() == s && final(self).pos == p,
                Err(e) => r matches Err(e2) && e2 == e,
            },
    {
        let n = match self.read_varuint32() {
            Ok(v) => v,
            Err(e) => {
                return Err(e);
            },
        };
        let ghost d = self.data@;
        let ghost p0 = self.pos as int;
        let mut entries: Vec<TableEntry> = Vec::new();
        let mut i: u32 = 0;
        proof {
            assert(entries.deep_view() =~= Seq::<TableEntry>::empty());
            assert(entries.deep_view() + Seq::<TableEntry>::empty() =~= entries.deep_view());
        }
        while i < n
            invariant
                self.wf(),
                self.data == old(self).data,
                self.data@ == d,
                old(self).pos <= self.pos,
                i <= n,
                spec_varuint32(d, old(self).pos as int) == Ok::<(u32, int), ParseError>((n, p0)),
                match spec_table_types(d, self.pos as int, (n - i) as nat) {
                    Ok((s, p)) => spec_table_types(d, p0, n as nat) == Ok::<
                        (Seq<TableEntry>, int),
                        ParseError,
                    >((entries.deep_view() + s, p)),
                    Err(e) => spec_table_types(d, p0, n as nat) == Err::<
                        (Seq<TableEntry>, int),
                        ParseError,
                    >(e),
                },
            decreases n - i,
        {
            let ghost prev = entries.deep_view();
            let entry = match self.read_table_type() {
                Ok(x) => x,
                Err(e) => {
                    return Err(e);
                },
            };
            entries.push(entry);
            i = i + 1;
            proof {
                assert(entries.deep_view() =~= prev.push(entry.deep_view()));
                match spec_table_types(d, self.pos as int, (n - i) as nat) {
                    Ok((s, p)) => {
                        assert(prev + (seq![entry.deep_view()] + s) =~= prev.push(
                            entry.deep_view(),
                        ) + s);
                    },
                    Err(e) => {},
                }
            }
        }
        proof {
            assert(entries.deep_view() + Seq::<TableEntry>::empty() =~= entries.deep_view());
        }
        Ok(entries)
    }
}

} // verus!
