//! The memory section: a list of memory descriptions, each a
//! resizable-limits record.

use vstd::prelude::*;
use super::{Parser, ParseError, ResizableLimits, spec_limits};
use super::varint::spec_varuint32;

verus! {

/// A memory description: its resizable limits.
#[derive(Clone, Copy, Debug, PartialEq, Eq)]
pub struct MemoryType {
    pub limits: ResizableLimits,
}

impl DeepView for MemoryType {
    type V = MemoryType;

    open spec fn deep_view(&self) -> MemoryType {
        *self
    }
}

/// Reading one memory description.
pub open spec fn spec_memory_type(d: Seq<u8>, pos: int) -> Result<(MemoryType, int), ParseError> {
    match spec_limits(d, pos) {
        Err(e) => Err(e),
        Ok((l, p)) => Ok((MemoryType { limits: l }, p)),
    }
}

/// Reading `n` memory descriptions in sequence.
pub open spec fn spec_memory_types(d: Seq<u8>, pos: int, n: nat) -> Result<
    (Seq<MemoryType>, int),
    ParseError,
>
    decreases n,
{
    if n == 0 {
        Ok((Seq::empty(), pos))
    } else {
        match spec_memory_type(d, pos) {
            Err(e) => Err(e),
            Ok((v, p)) => match spec_memory_types(d, p, (n - 1) as nat) {
                Err(e) => Err(e),
                Ok((s, p2)) => Ok((seq![v] + s, p2)),
            },
        }
    }
}

/// Reading the memory section: a count, then that many descriptions.
pub open spec fn spec_memory_section(d: Seq<u8>, pos: int) -> Result<(Seq<MemoryType>, int), ParseError> {
    match spec_varuint32(d, pos) {
        Err(e) => Err(e),
        Ok((n, p)) => spec_memory_types(d, p, n as nat),
    }
}

impl Parser {
    /// Reads one memory description.
    pub fn read_memory_type(&mut self) -> (r: Result<MemoryType, ParseError>)
        requires
            old(self).wf(),
        ensures
            final(self).wf(),
            final(self).data == old(self).data,
            old(self).pos <= final(self).pos,
            match spec_memory_type(old(self).data@, old(self).pos as int) {
                Ok((v, p)) => r matches Ok(x) && x == v && final(self).pos == p,
                Err(e) => r matches Err(e2) && e2 == e,
            },
    {
        match self.read_resizable_limits() {
            Ok(l) => Ok(MemoryType { limits: l }),
            Err(e) => Err(e),
        }
    }

    /// Reads the memory section's list of memory descriptions.
    pub fn parse_memory_section(&mut self, payload_len: u32) -> (r: Result<Vec<MemoryType>, ParseError>)
        requires
            old(self).wf(),
        ensures
            final(self).wf(),
            final(self).data == old(self).data,
            old(self).pos <= final(self).pos,
            match spec_memory_section(old(self).data@, old(self).pos as int) {
                Ok((s, p)) => r matches Ok(v) && v.deep_view() == s && final(self).pos == p,
                Err(e) => r matches Err(e2) && e2 == e,
            },
    {
        let n = match self.read_varuint32() {
            Ok(v) => v,
            Err(e) => {
                return Err(e);
            },
        };
        let ghost d = self.data@;
        let ghost p0 = self.pos as int;
        let mut entries: Vec<MemoryType> = Vec::new();
        let mut i: u32 = 0;
        proof {
            assert(entries.deep_view() =~= Seq::<MemoryType>::empty());
            assert(entries.deep_view() + Seq::<MemoryType>::empty() =~= entries.deep_view());
        }
        while i < n
            invariant
                self.wf(),
                self.data == old(self).data,
                self.data@ == d,
                old(self).pos <= self.pos,
                i <= n,
                spec_varuint32(d, old(self).pos as int) == Ok::<(u32, int), ParseError>((n, p0)),
                match spec_memory_types(d, self.pos as int, (n - i) as nat) {
                    Ok((s, p)) => spec_memory_types(d, p0, n as nat) == Ok::<
                        (Seq<MemoryType>, int),
                        ParseError,
                    >((entries.deep_view() + s, p)),
                    Err(e) => spec_memory_types(d, p0, n as nat) == Err::<
                        (Seq<MemoryType>, int),
                        ParseError,
                    >(e),
                },
            decreases n - i,
        {
            let ghost prev = entries.deep_view();
            let entry = match self.read_memory_type() {
                Ok(x) => x,
                Err(e) => {
                    return Err(e);
                },
            };
            entries.push(entry);
            i = i + 1;
            proof {
                assert(entries.deep_view() =~= prev.push(entry.deep_view()));
                match spec_memory_types(d, self.pos as int, (n - i) as nat) {
                    Ok((s, p)) => {
                        assert(prev + (seq![entry.deep_view()] + s) =~= prev.push(
                            entry.deep_view(),
                        ) + s);
                    },
                    Err(e) => {},
                }
            }
        }
        proof {
            assert(entries.deep_view() + Seq::<MemoryType>::empty() =~= entries.deep_view());
        }
        Ok(entries)
    }
}

} // verus!
