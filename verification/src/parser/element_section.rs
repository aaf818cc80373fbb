//! The element section: segments that seed a table, each a table index,
//! a constant offset expression, and a list of function indices.

use vstd::prelude::*;
use super::{Parser, ParseError, FnId};
use super::varint::spec_varuint32;
use super::opcode::{InitExpr, spec_init_expr};
use super::function_section::spec_fn_ids;

verus! {

/// One element segment: the table it fills, where, and with which
/// function indices.
#[derive(Clone, Debug, PartialEq, Eq)]
pub struct ElemSegment {
    pub index: u32,
    pub offset: InitExpr,
    pub elems: Vec<FnId>,
}

/// The mathematical shape of an element segment.
pub struct ElemSegmentV {
    pub index: u32,
    pub offset: InitExpr,
    pub elems: Seq<FnId>,
}

impl DeepView for ElemSegment {
    type V = ElemSegmentV;

    open spec fn deep_view(&self) -> ElemSegmentV {
        ElemSegmentV { index: self.index, offset: self.offset, elems: self.elems.deep_view() }
    }
}

/// Reading one element segment: a table index, an initializer offset, and
/// a count-prefixed list of function indices.
pub open spec fn spec_element(d: Seq<u8>, pos: int) -> Result<(ElemSegmentV, int), ParseError> {
    match spec_varuint32(d, pos) {
        Err(e) => Err(e),
        Ok((index, p)) => match spec_init_expr(d, p) {
            Err(e) => Err(e),
            Ok((offset, p2)) => match spec_varuint32(d, p2) {
                Err(e) => Err(e),
                Ok((n, p3)) => match spec_fn_ids(d, p3, n as nat) {
                    Err(e) => Err(e),
                    Ok((elems, p4)) => Ok((ElemSegmentV { index, offset, elems }, p4)),
                },
            },
        },
    }
}

/// Reading `n` element segments in sequence.
pub open spec fn spec_elements(d: Seq<u8>, pos: int, n: nat) -> Result<
    (Seq<ElemSegmentV>, int),
    ParseError,
>
    decreases n,
{
    if n == 0 {
        Ok((Seq::empty(), pos))
    } else {
        match spec_element(d, pos) {
            Err(e) => Err(e),
            Ok((v, p)) => match spec_elements(d, p, (n - 1) as nat) {
                Err(e) => Err(e),
                Ok((s, p2)) => Ok((seq![v] + s, p2)),
            },
        }
    }
}

/// Reading the element section: a count, then that many segments.
pub open spec fn spec_element_section(d: Seq<u8>, pos: int) -> Result<
    (Seq<ElemSegmentV>, int),
    ParseError,
> {
    match spec_varuint32(d, pos) {
        Err(e) => Err(e),
        Ok((n, p)) => spec_elements(d, p, n as nat),
    }
}

impl Parser {
    /// Reads one element segment.
    pub fn read_element(&mut self) -> (r: Result<ElemSegment, ParseError>)
        requires
            old(self).wf(),
        ensures
            final(self).wf(),
            final(self).data == old(self).data,
            old(self).pos <= final(self).pos,
            match spec_element(old(self).data@, old(self).pos as int) {
                Ok((v, p)) => r matches Ok(x) && x.deep_view() == v && final(self).pos == p,
                Err(e) => r matches Err(e2) && e2 == e,
            },
    {
        let index = match self.read_varuint32() {
            Ok(v) => v,
            Err(e) => {
                return Err(e);
            },
        };
        let offset = match self.read_init_expr() {
            Ok(x) => x,
            Err(e) => {
                return Err(e);
            },
        };
        let ghost p2 = self.pos as int;
        let n = match self.read_varuint32() {
            Ok(v) => v,
            Err(e) => {
                return Err(e);
            },
        };
        let ghost d = self.data@;
        let ghost p0 = self.pos as int;
        let mut elems: Vec<FnId> = Vec::new();
        let mut i: u32 = 0;
        proof {
            assert(elems.deep_view() =~= Seq::<FnId>::empty());
        }
        while i < n
            invariant
                self.wf(),
                self.data == old(self).data,
                self.data@ == d,
                old(self).pos <= self.pos,
                i <= n,
                spec_varuint32(d, old(self).pos as int) matches Ok((idx, pa)) && (idx == index && (
                spec_init_expr(d, pa) matches Ok((off, pb)) && (off == offset && pb == p2))),
                spec_varuint32(d, p2) == Ok::<(u32, int), ParseError>((n, p0)),
                match spec_fn_ids(d, self.pos as int, (n - i) as nat) {
                    Ok((s, p)) => spec_fn_ids(d, p0, n as nat) == Ok::<(Seq<FnId>, int), ParseError>(
                        (elems.deep_view() + s, p),
                    ),
                    Err(e) => spec_fn_ids(d, p0, n as nat) == Err::<(Seq<FnId>, int), ParseError>(
                        e,
                    ),
                },
            decreases n - i,
        {
            let ghost prev = elems.deep_view();
            let id = match self.read_fn_id() {
                Ok(x) => x,
                Err(e) => {
                    return Err(e);
                },
            };
            elems.push(id);
            i = i + 1;
            proof {
                assert(elems.deep_view() =~= prev.push(id));
                match spec_fn_ids(d, self.pos as int, (n - i) as nat) {
                    Ok((s, p)) => {
                        assert(prev + (seq![id] + s) =~= prev.push(id) + s);
                    },
                    Err(e) => {},
                }
            }
        }
        proof {
            assert(elems.deep_view() + Seq::<FnId>::empty() =~= elems.deep_view());
        }
        Ok(ElemSegment { index, offset, elems })
    }

    /// Reads the element section's list of segments.
    pub fn parse_element_section(&mut self, payload_len: u32) -> (r: Result<Vec<ElemSegment>, ParseError>)
        requires
            old(self).wf(),
        ensures
            final(self).wf(),
            final(self).data == old(self).data,
            old(self).pos <= final(self).pos,
            match spec_element_section(old(self).data@, old(self).pos as int) {
                Ok((s, p)) => r matches Ok(v) && v.deep_view() == s && final(self).pos == p,
                Err(e) => r matches Err(e2) && e2 == e,
            },
    {
        let n = match self.read_varuint32() {
            Ok(v) => v,
            Err(e) => {
                return Err(e);
            },
        };
        let ghost d = self.data@;
        let ghost p0 = self.pos as int;
        let mut entries: Vec<ElemSegment> = Vec::new();
        let mut i: u32 = 0;
        proof {
            assert(entries.deep_view() =~= Seq::<ElemSegmentV>::empty());
            assert(entries.deep_view() + Seq::<ElemSegmentV>::empty() =~= entries.deep_view());
        }
        while i < n
            invariant
                self.wf(),
                self.data == old(self).data,
                self.data@ == d,
                old(self).pos <= self.pos,
                i <= n,
                spec_varuint32(d, old(self).pos as int) == Ok::<(u32, int), ParseError>((n, p0)),
                match spec_elements(d, self.pos as int, (n - i) as nat) {
                    Ok((s, p)) => spec_elements(d, p0, n as nat) == Ok::<
                        (Seq<ElemSegmentV>, int),
                        ParseError,
                    >((entries.deep_view() + s, p)),
                    Err(e) => spec_elements(d, p0, n as nat) == Err::<
                        (Seq<ElemSegmentV>, int),
                        ParseError,
                    >(e),
                },
            decreases n - i,
        {
            let ghost prev = entries.deep_view();
            let entry = match self.read_element() {
                Ok(x) => x,
                Err(e) => {
                    return Err(e);
                },
            };
            entries.push(entry);
            i = i + 1;
            proof {
                assert(entries.deep_view() =~= prev.push(entry.deep_view()));
                match spec_elements(d, self.pos as int, (n - i) as nat) {
                    Ok((s, p)) => {
                        assert(prev + (seq![entry.deep_view()] + s) =~= prev.push(
                            entry.deep_view(),
                        ) + s);
                    },
                    Err(e) => {},
                }
            }
        }
        proof {
            assert(entries.deep_view() + Seq::<ElemSegmentV>::empty() =~= entries.deep_view());
        }
        Ok(entries)
    }
}

} // verus!
