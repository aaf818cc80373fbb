//! The code section: one body per defined function, each with its own
//! declared byte size, a locals list, and an instruction stream closed by
//! the `end` opcode.

use vstd::prelude::*;
use super::{Parser, ParseError, Type, spec_value_type};
use super::varint::spec_varuint32;
use super::opcode::{Op, Opcode, spec_op};

verus! {

/// A run of local variables of one type.
#[derive(Clone, Copy, Debug, PartialEq, Eq)]
pub struct Local {
    pub count: u32,
    pub typ: Type,
}

impl DeepView for Local {
    type V = Local;

    open spec fn deep_view(&self) -> Local {
        *self
    }
}

/// One function body: its locals and its instruction stream, without the
/// trailing `end` opcode.
#[derive(Clone, Debug, PartialEq, Eq)]
pub struct FnBody {
    pub locals: Vec<Local>,
    pub code: Vec<Op>,
}

/// The mathematical shape of a function body.
pub struct FnBodyV {
    pub locals: Seq<Local>,
    pub code: Seq<Op>,
}

impl DeepView for FnBody {
    type V = FnBodyV;

    open spec fn deep_view(&self) -> FnBodyV {
        FnBodyV { locals: self.locals.deep_view(), code: self.code.deep_view() }
    }
}

/// Reading one locals entry: a repeat count, then the type.
pub open spec fn spec_local_entry(d: Seq<u8>, pos: int) -> Result<(Local, int), ParseError> {
    match spec_varuint32(d, pos) {
        Err(e) => Err(e),
        Ok((count, p)) => match spec_value_type(d, p) {
            Err(e) => Err(e),
            Ok((ty, p2)) => Ok((Local { count, typ: ty }, p2)),
        },
    }
}

/// Reading `n` locals entries in sequence.
pub open spec fn spec_local_entries(d: Seq<u8>, pos: int, n: nat) -> Result<
    (Seq<Local>, int),
    ParseError,
>
    decreases n,
{
    if n == 0 {
        Ok((Seq::empty(), pos))
    } else {
        match spec_local_entry(d, pos) {
            Err(e) => Err(e),
            Ok((v, p)) => match spec_local_entries(d, p, (n - 1) as nat) {
                Err(e) => Err(e),
                Ok((s, p2)) => Ok((seq![v] + s, p2)),
            },
        }
    }
}

/// Reading instructions from `pos` up to exactly `end`: each instruction
/// is one byte, so the stream ends exactly at `end`.
pub open spec fn spec_ops(d: Seq<u8>, pos: int, end: int) -> Result<(Seq<Op>, int), ParseError>
    decreases end - pos,
{
    if pos >= end {
        Ok((Seq::empty(), pos))
    } else {
        match spec_op(d, pos) {
            Err(e) => Err(e),
            Ok((op, p)) => match spec_ops(d, p, end) {
                Err(e) => Err(e),
                Ok((s, p2)) => Ok((seq![op] + s, p2)),
            },
        }
    }
}

/// Reading one function body: its declared byte size, a count-prefixed
/// locals list, then instructions filling the rest of the declared size
/// but for one final byte, which must be the `end` opcode. A declared
/// size too small for the locals list and terminator is a
/// `SectionLengthMismatch`, as is a terminator byte that is not `end`.
pub open spec fn spec_fn_body(d: Seq<u8>, pos: int) -> Result<(FnBodyV, int), ParseError> {
    match spec_varuint32(d, pos) {
        Err(e) => Err(e),
        Ok((body_size, p1)) => match spec_varuint32(d, p1) {
            Err(e) => Err(e),
            Ok((n, p2)) => match spec_local_entries(d, p2, n as nat) {
                Err(e) => Err(e),
                Ok((locals, p3)) => {
                    let head_size = p3 - p1;
                    if body_size < head_size + 1 {
                        Err(ParseError::SectionLengthMismatch)
                    } else {
                        let code_end = p3 + (body_size - head_size - 1);
                        match spec_ops(d, p3, code_end) {
                            Err(e) => Err(e),
                            Ok((code, p4)) => match spec_op(d, p4) {
                                Err(e) => Err(e),
                                Ok((term, p5)) => if term.opcode == Opcode::end {
                                    Ok((FnBodyV { locals, code }, p5))
                                } else {
                                    Err(ParseError::SectionLengthMismatch)
                                },
                            },
                        }
                    }
                },
            },
        },
    }
}

/// Reading `n` function bodies in sequence.
pub open spec fn spec_fn_bodies(d: Seq<u8>, pos: int, n: nat) -> Result<
    (Seq<FnBodyV>, int),
    ParseError,
>
    decreases n,
{
    if n == 0 {
        Ok((Seq::empty(), pos))
    } else {
        match spec_fn_body(d, pos) {
            Err(e) => Err(e),
            Ok((v, p)) => match spec_fn_bodies(d, p, (n - 1) as nat) {
                Err(e) => Err(e),
                Ok((s, p2)) => Ok((seq![v] + s, p2)),
            },
        }
    }
}

/// Reading the code section: a count, then that many bodies.
pub open spec fn spec_code_section(d: Seq<u8>, pos: int) -> Result<
    (Seq<FnBodyV>, int),
    ParseError,
> {
    match spec_varuint32(d, pos) {
        Err(e) => Err(e),
        Ok((n, p)) => spec_fn_bodies(d, p, n as nat),
    }
}

impl Parser {
    /// Reads one locals entry.
    pub fn read_local_entry(&mut self) -> (r: Result<Local, ParseError>)
        requires
            old(self).wf(),
        ensures
            final(self).wf(),
            final(self).data == old(self).data,
            old(self).pos <= final(self).pos,
            match spec_local_entry(old(self).data@, old(self).pos as int) {
                Ok((v, p)) => r matches Ok(x) && x == v && final(self).pos == p,
                Err(e) => r matches Err(e2) && e2 == e,
            },
    {
        let count = match self.read_varuint32() {
            Ok(v) => v,
            Err(e) => {
                return Err(e);
            },
        };
        let typ = match self.read_value_type() {
            Ok(t) => t,
            Err(e) => {
                return Err(e);
            },
        };
        Ok(Local { count, typ })
    }

    /// Reads one function body.
    pub fn read_fn_body(&mut self) -> (r: Result<FnBody, ParseError>)
        requires
            old(self).wf(),
        ensures
            final(self).wf(),
            final(self).data == old(self).data,
            old(self).pos <= final(self).pos,
            match spec_fn_body(old(self).data@, old(self).pos as int) {
                Ok((v, p)) => r matches Ok(x) && x.deep_view() == v && final(self).pos == p,
                Err(e) => r matches Err(e2) && e2 == e,
            },
    {
        let body_size = match self.read_varuint32() {
            Ok(v) => v,
            Err(e) => {
                return Err(e);
            },
        };
        let body_head_offset = self.get_current_offset();
        let ghost p1 = self.pos as int;
        let n = match self.read_varuint32() {
            Ok(v) => v,
            Err(e) => {
                return Err(e);
            },
        };
        let ghost d = self.data@;
        let ghost p0 = self.pos as int;
        let mut locals: Vec<Local> = Vec::new();
        let mut i: u32 = 0;
        proof {
            assert(locals.deep_view() =~= Seq::<Local>::empty());
        }
        while i < n
            invariant
                self.wf(),
                self.data == old(self).data,
                self.data@ == d,
                old(self).pos <= self.pos,
                i <= n,
                spec_varuint32(d, old(self).pos as int) matches Ok((bs, pa)) && (bs == body_size
                    && pa == p1),
                body_head_offset == p1,
                p1 <= p0 <= self.pos as int,
                spec_varuint32(d, p1) == Ok::<(u32, int), ParseError>((n, p0)),
                match spec_local_entries(d, self.pos as int, (n - i) as nat) {
                    Ok((s, p)) => spec_local_entries(d, p0, n as nat) == Ok::<
                        (Seq<Local>, int),
                        ParseError,
                    >((locals.deep_view() + s, p)),
                    Err(e) => spec_local_entries(d, p0, n as nat) == Err::<
                        (Seq<Local>, int),
                        ParseError,
                    >(e),
                },
            decreases n - i,
        {
            let ghost prev = locals.deep_view();
            let entry = match self.read_local_entry() {
                Ok(x) => x,
                Err(e) => {
                    return Err(e);
                },
            };
            locals.push(entry);
            i = i + 1;
            proof {
                assert(locals.deep_view() =~= prev.push(entry));
                match spec_local_entries(d, self.pos as int, (n - i) as nat) {
                    Ok((s, p)) => {
                        assert(prev + (seq![entry] + s) =~= prev.push(entry) + s);
                    },
                    Err(e) => {},
                }
            }
        }
        proof {
            assert(locals.deep_view() + Seq::<Local>::empty() =~= locals.deep_view());
        }
        let body_head_size = self.get_read_len(body_head_offset);
        if (body_size as usize) < body_head_size + 1 {
            return Err(ParseError::SectionLengthMismatch);
        }
        let codelen: usize = body_size as usize - body_head_size - 1;
        let code_offset = self.get_current_offset();
        let ghost p3 = self.pos as int;
        let ghost code_end = p3 + codelen;
        let mut code: Vec<Op> = Vec::new();
        proof {
            assert(code.deep_view() =~= Seq::<Op>::empty());
        }
        while self.pos - code_offset < codelen
            invariant
                self.wf(),
                self.data == old(self).data,
                self.data@ == d,
                old(self).pos <= self.pos,
                code_offset <= self.pos,
                self.pos as int <= code_end,
                code_offset == p3,
                code_end == p3 + codelen,
                spec_varuint32(d, old(self).pos as int) matches Ok((bs, pa)) && (bs == body_size
                    && pa == p1),
                spec_varuint32(d, p1) matches Ok((nn, pb)) && (nn == n && pb == p0),
                spec_local_entries(d, p0, n as nat) == Ok::<(Seq<Local>, int), ParseError>(
                    (locals.deep_view(), p3),
                ),
                body_size >= (p3 - p1) + 1,
                codelen == body_size - (p3 - p1) - 1,
                match spec_ops(d, self.pos as int, code_end) {
                    Ok((s, p)) => spec_ops(d, p3, code_end) == Ok::<(Seq<Op>, int), ParseError>(
                        (code.deep_view() + s, p),
                    ),
                    Err(e) => spec_ops(d, p3, code_end) == Err::<(Seq<Op>, int), ParseError>(e),
                },
            decreases code_end - self.pos,
        {
            let ghost prev = code.deep_view();
            let op = match self.read_op() {
                Ok(x) => x,
                Err(e) => {
                    proof {
                        assert(spec_ops(d, p3, code_end) matches Err(e3) && e3 == e);
                    }
                    return Err(e);
                },
            };
            code.push(op);
            proof {
                assert(code.deep_view() =~= prev.push(op));
                match spec_ops(d, self.pos as int, code_end) {
                    Ok((s, p)) => {
                        assert(prev + (seq![op] + s) =~= prev.push(op) + s);
                    },
                    Err(e) => {},
                }
            }
        }
        proof {
            assert(self.pos as int == code_end);
            assert(code.deep_view() + Seq::<Op>::empty() =~= code.deep_view());
        }
        let end_op = match self.read_op() {
            Ok(x) => x,
            Err(e) => {
                return Err(e);
            },
        };
        if !matches!(end_op.opcode, Opcode::end) {
            return Err(ParseError::SectionLengthMismatch);
        }
        Ok(FnBody { locals, code })
    }

    /// Reads the code section's list of function bodies.
    pub fn parse_code_section(&mut self, payload_len: u32) -> (r: Result<Vec<FnBody>, ParseError>)
        requires
            old(self).wf(),
        ensures
            final(self).wf(),
            final(self).data == old(self).data,
            old(self).pos <= final(self).pos,
            match spec_code_section(old(self).data@, old(self).pos as int) {
                Ok((s, p)) => r matches Ok(v) && v.deep_view() == s && final(self).pos == p,
                Err(e) => r matches Err(e2) && e2 == e,
            },
    {
        let n = match self.read_varuint32() {
            Ok(v) => v,
            Err(e) => {
                return Err(e);
            },
        };
        let ghost d = self.data@;
        let ghost p0 = self.pos as int;
        let mut entries: Vec<FnBody> = Vec::new();
        let mut i: u32 = 0;
        proof {
            assert(entries.deep_view() =~= Seq::<FnBodyV>::empty());
            assert(entries.deep_view() + Seq::<FnBodyV>::empty() =~= entries.deep_view());
        }
        while i < n
            invariant
                self.wf(),
                self.data == old(self).data,
                self.data@ == d,
                old(self).pos <= self.pos,
                i <= n,
                spec_varuint32(d, old(self).pos as int) == Ok::<(u32, int), ParseError>((n, p0)),
                match spec_fn_bodies(d, self.pos as int, (n - i) as nat) {
                    Ok((s, p)) => spec_fn_bodies(d, p0, n as nat) == Ok::<
                        (Seq<FnBodyV>, int),
                        ParseError,
                    >((entries.deep_view() + s, p)),
                    Err(e) => spec_fn_bodies(d, p0, n as nat) == Err::<
                        (Seq<FnBodyV>, int),
                        ParseError,
                    >(e),
                },
            decreases n - i,
        {
            let ghost prev = entries.deep_view();
            let entry = match self.read_fn_body() {
                Ok(x) => x,
                Err(e) => {
                    return Err(e);
                },
            };
            entries.push(entry);
            i = i + 1;
            proof {
                assert(entries.deep_view() =~= prev.push(entry.deep_view()));
                match spec_fn_bodies(d, self.pos as int, (n - i) as nat) {
                    Ok((s, p)) => {
                        assert(prev + (seq![entry.deep_view()] + s) =~= prev.push(
                            entry.deep_view(),
                        ) + s);
                    },
                    Err(e) => {},
                }
            }
        }
        proof {
            assert(entries.deep_view() + Seq::<FnBodyV>::empty() =~= entries.deep_view());
        }
        Ok(entries)
    }
}

} // verus!
