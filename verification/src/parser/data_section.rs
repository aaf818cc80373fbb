//! The data section: segments that seed a linear memory, each a memory
//! index, a constant offset expression, and a raw byte payload.

use vstd::prelude::*;
use super::{Parser, ParseError, spec_bytes};
use super::varint::spec_varuint32;
use super::opcode::{InitExpr, spec_init_expr};

verus! {

/// One data segment: the memory it fills, where, and with which bytes.
#[derive(Clone, Debug, PartialEq, Eq)]
pub struct DataEntry {
    pub index: u32,
    pub offset: InitExpr,
    pub data: Vec<u8>,
}

/// The mathematical shape of a data segment.
pub struct DataEntryV {
    pub index: u32,
    pub offset: InitExpr,
    pub data: Seq<u8>,
}

impl DeepView for DataEntry {
    type V = DataEntryV;

    open spec fn deep_view(&self) -> DataEntryV {
        DataEntryV { index: self.index, offset: self.offset, data: self.data.deep_view() }
    }
}

/// Reading one data segment: a memory index, an initializer offset, and a
/// length-prefixed raw byte payload.
pub open spec fn spec_data_entry(d: Seq<u8>, pos: int) -> Result<(DataEntryV, int), ParseError> {
    match spec_varuint32(d, pos) {
        Err(e) => Err(e),
        Ok((index, p)) => match spec_init_expr(d, p) {
            Err(e) => Err(e),
            Ok((offset, p2)) => match spec_varuint32(d, p2) {
                Err(e) => Err(e),
                Ok((size, p3)) => match spec_bytes(d, p3, size as nat) {
                    Err(e) => Err(e),
                    Ok((bytes, p4)) => Ok((DataEntryV { index, offset, data: bytes }, p4)),
                },
            },
        },
    }
}

/// Reading `n` data segments in sequence.
pub open spec fn spec_data_entries(d: Seq<u8>, pos: int, n: nat) -> Result<
    (Seq<DataEntryV>, int),
    ParseError,
>
    decreases n,
{
    if n == 0 {
        Ok((Seq::empty(), pos))
    } else {
        match spec_data_entry(d, pos) {
            Err(e) => Err(e),
            Ok((v, p)) => match spec_data_entries(d, p, (n - 1) as nat) {
                Err(e) => Err(e),
                Ok((s, p2)) => Ok((seq![v] + s, p2)),
            },
        }
    }
}

/// Reading the data section: a count, then that many segments.
pub open spec fn spec_data_section(d: Seq<u8>, pos: int) -> Result<
    (Seq<DataEntryV>, int),
    ParseError,
> {
    match spec_varuint32(d, pos) {
        Err(e) => Err(e),
        Ok((n, p)) => spec_data_entries(d, p, n as nat),
    }
}

impl Parser {
    /// Reads one data segment.
    pub fn read_data_entry(&mut self) -> (r: Result<DataEntry, ParseError>)
        requires
            old(self).wf(),
        ensures
            final(self).wf(),
            final(self).data == old(self).data,
            old(self).pos <= final(self).pos,
            match spec_data_entry(old(self).data@, old(self).pos as int) {
                Ok((v, p)) => r matches Ok(x) && x.deep_view() == v && final(self).pos == p,
                Err(e) => r matches Err(e2) && e2 == e,
            },
    {
        let index = match self.read_varuint32() {
            Ok(v) => v,
            Err(e) => {
                return Err(e);
            },
        };
        let offset = match self.read_init_expr() {
            Ok(x) => x,
            Err(e) => {
                return Err(e);
            },
        };
        let size = match self.read_varuint32() {
            Ok(v) => v,
            Err(e) => {
                return Err(e);
            },
        };
        let bytes = match self.read_bytes(size) {
            Ok(b) => b,
            Err(e) => {
                return Err(e);
            },
        };
        proof {
            assert(bytes.deep_view() =~= bytes@);
        }
        Ok(DataEntry { index, offset, data: bytes })
    }

    /// Reads the data section's list of segments.
    pub fn parse_data_section(&mut self, payload_len: u32) -> (r: Result<Vec<DataEntry>, ParseError>)
        requires
            old(self).wf(),
        ensures
            final(self).wf(),
            final(self).data == old(self).data,
            old(self).pos <= final(self).pos,
            match spec_data_section(old(self).data@, old(self).pos as int) {
                Ok((s, p)) => r matches Ok(v) && v.deep_view() == s && final(self).pos == p,
                Err(e) => r matches Err(e2) && e2 == e,
            },
    {
        let n = match self.read_varuint32() {
            Ok(v) => v,
            Err(e) => {
                return Err(e);
            },
        };
        let ghost d = self.data@;
        let ghost p0 = self.pos as int;
        let mut entries: Vec<DataEntry> = Vec::new();
        let mut i: u32 = 0;
        proof {
            assert(entries.deep_view() =~= Seq::<DataEntryV>::empty());
            assert(entries.deep_view() + Seq::<DataEntryV>::empty() =~= entries.deep_view());
        }
        while i < n
            invariant
                self.wf(),
                self.data == old(self).data,
                self.data@ == d,
                old(self).pos <= self.pos,
                i <= n,
                spec_varuint32(d, old(self).pos as int) == Ok::<(u32, int), ParseError>((n, p0)),
                match spec_data_entries(d, self.pos as int, (n - i) as nat) {
                    Ok((s, p)) => spec_data_entries(d, p0, n as nat) == Ok::<
                        (Seq<DataEntryV>, int),
                        ParseError,
                    >((entries.deep_view() + s, p)),
                    Err(e) => spec_data_entries(d, p0, n as nat) == Err::<
                        (Seq<DataEntryV>, int),
                        ParseError,
                    >(e),
                },
            decreases n - i,
        {
            let ghost prev = entries.deep_view();
            let entry = match self.read_data_entry() {
                Ok(x) => x,
                Err(e) => {
                    return Err(e);
                },
            };
            entries.push(entry);
            i = i + 1;
            proof {
                assert(entries.deep_view() =~= prev.push(entry.deep_view()));
                match spec_data_entries(d, self.pos as int, (n - i) as nat) {
                    Ok((s, p)) => {
                        assert(prev + (seq![entry.deep_view()] + s) =~= prev.push(
                            entry.deep_view(),
                        ) + s);
                    },
                    Err(e) => {},
                }
            }
        }
        proof {
            assert(entries.deep_view() + Seq::<DataEntryV>::empty() =~= entries.deep_view());
        }
        Ok(entries)
    }
}

} // verus!
