//! The global section: a list of global variables, each a typed slot
//! with a constant initializer expression.

use vstd::prelude::*;
use super::{Parser, ParseError, Type, spec_value_type};
use super::varint::{spec_varuint32, spec_varuint1};
use super::opcode::{InitExpr, spec_init_expr};

verus! {

/// The type of a global variable: its content type and mutability.
#[derive(Clone, Copy, Debug, PartialEq, Eq)]
pub struct GlobalType {
    pub content_type: Type,
    pub mutability: bool,
}

/// A global variable: its type and its initializer expression.
#[derive(Clone, Copy, Debug, PartialEq, Eq)]
pub struct GlobalVariable {
    pub typ: GlobalType,
    pub init: InitExpr,
}

impl DeepView for GlobalType {
    type V = GlobalType;

    open spec fn deep_view(&self) -> GlobalType {
        *self
    }
}

impl DeepView for GlobalVariable {
    type V = GlobalVariable;

    open spec fn deep_view(&self) -> GlobalVariable {
        *self
    }
}

/// Reading one global type: a value type, then a mutability flag.
pub open spec fn spec_global_type(d: Seq<u8>, pos: int) -> Result<(GlobalType, int), ParseError> {
    match spec_value_type(d, pos) {
        Err(e) => Err(e),
        Ok((ty, p)) => match spec_varuint1(d, p) {
            Err(e) => Err(e),
            Ok((m, p2)) => Ok((GlobalType { content_type: ty, mutability: m }, p2)),
        },
    }
}

/// Reading one global variable: its type, then its initializer.
pub open spec fn spec_global_variable(d: Seq<u8>, pos: int) -> Result<
    (GlobalVariable, int),
    ParseError,
> {
    match spec_global_type(d, pos) {
        Err(e) => Err(e),
        Ok((ty, p)) => match spec_init_expr(d, p) {
            Err(e) => Err(e),
            Ok((init, p2)) => Ok((GlobalVariable { typ: ty, init }, p2)),
        },
    }
}

/// Reading `n` global variables in sequence.
pub open spec fn spec_global_variables(d: Seq<u8>, pos: int, n: nat) -> Result<
    (Seq<GlobalVariable>, int),
    ParseError,
>
    decreases n,
{
    if n == 0 {
        Ok((Seq::empty(), pos))
    } else {
        match spec_global_variable(d, pos) {
            Err(e) => Err(e),
            Ok((v, p)) => match spec_global_variables(d, p, (n - 1) as nat) {
                Err(e) => Err(e),
                Ok((s, p2)) => Ok((seq![v] + s, p2)),
            },
        }
    }
}

/// Reading the global section: a count, then that many globals.
pub open spec fn spec_global_section(d: Seq<u8>, pos: int) -> Result<(Seq<GlobalVariable>, int), ParseError> {
    match spec_varuint32(d, pos) {
        Err(e) => Err(e),
        Ok((n, p)) => spec_global_variables(d, p, n as nat),
    }
}

impl Parser {
    /// Reads one global type.
    pub fn read_global_type(&mut self) -> (r: Result<GlobalType, ParseError>)
        requires
            old(self).wf(),
        ensures
            final(self).wf(),
            final(self).data == old(self).data,
            old(self).pos <= final(self).pos,
            match spec_global_type(old(self).data@, old(self).pos as int) {
                Ok((v, p)) => r matches Ok(x) && x == v && final(self).pos == p,
                Err(e) => r matches Err(e2) && e2 == e,
            },
    {
        let content_type = match self.read_value_type() {
            Ok(t) => t,
            Err(e) => {
                return Err(e);
            },
        };
        let mutability = match self.read_varuint1() {
            Ok(m) => m,
            Err(e) => {
                return Err(e);
            },
        };
        Ok(GlobalType { content_type, mutability })
    }

    /// Reads one global variable.
    pub fn read_global_variable(&mut self) -> (r: Result<GlobalVariable, ParseError>)
        requires
            old(self).wf(),
        ensures
            final(self).wf(),
            final(self).data == old(self).data,
            old(self).pos <= final(self).pos,
            match spec_global_variable(old(self).data@, old(self).pos as int) {
                Ok((v, p)) => r matches Ok(x) && x == v && final(self).pos == p,
                Err(e) => r matches Err(e2) && e2 == e,
            },
    {
        let typ = match self.read_global_type() {
            Ok(t) => t,
            Err(e) => {
                return Err(e);
            },
        };
        let init = match self.read_init_expr() {
            Ok(x) => x,
            Err(e) => {
                return Err(e);
            },
        };
        Ok(GlobalVariable { typ, init })
    }

    /// Reads the global section's list of global variables.
    pub fn parse_global_section(&mut self, payload_len: u32) -> (r: Result<Vec<GlobalVariable>, ParseError>)
        requires
            old(self).wf(),
        ensures
            final(self).wf(),
            final(self).data == old(self).data,
            old(self).pos <= final(self).pos,
            match spec_global_section(old(self).data@, old(self).pos as int) {
                Ok((s, p)) => r matches Ok(v) && v.deep_view() == s && final(self).pos == p,
                Err(e) => r matches Err(e2) && e2 == e,
            },
    {
        let n = match self.read_varuint32() {
            Ok(v) => v,
            Err(e) => {
                return Err(e);
            },
        };
        let ghost d = self.data@;
        let ghost p0 = self.pos as int;
        let mut entries: Vec<GlobalVariable> = Vec::new();
        let mut i: u32 = 0;
        proof {
            assert(entries.deep_view() =~= Seq::<GlobalVariable>::empty());
            assert(entries.deep_view() + Seq::<GlobalVariable>::empty() =~= entries.deep_view());
        }
        while i < n
            invariant
                self.wf(),
                self.data == old(self).data,
                self.data@ == d,
                old(self).pos <= self.pos,
                i <= n,
                spec_varuint32(d, old(self).pos as int) == Ok::<(u32, int), ParseError>((n, p0)),
                match spec_global_variables(d, self.pos as int, (n - i) as nat) {
                    Ok((s, p)) => spec_global_variables(d, p0, n as nat) == Ok::<
                        (Seq<GlobalVariable>, int),
                        ParseError,
                    >((entries.deep_view() + s, p)),
                    Err(e) => spec_global_variables(d, p0, n as nat) == Err::<
                        (Seq<GlobalVariable>, int),
                        ParseError,
                    >(e),
                },
            decreases n - i,
        {
            let ghost prev = entries.deep_view();
            let entry = match self.read_global_variable() {
                Ok(x) => x,
                Err(e) => {
                    return Err(e);
                },
            };
            entries.push(entry);
            i = i + 1;
            proof {
                assert(entries.deep_view() =~= prev.push(entry.deep_view()));
                match spec_global_variables(d, self.pos as int, (n - i) as nat) {
                    Ok((s, p)) => {
                        assert(prev + (seq![entry.deep_view()] + s) =~= prev.push(
                            entry.deep_view(),
                        ) + s);
                    },
                    Err(e) => {},
                }
            }
        }
        proof {
            assert(entries.deep_view() + Seq::<GlobalVariable>::empty() =~= entries.deep_view());
        }
        Ok(entries)
    }
}

} // verus!
