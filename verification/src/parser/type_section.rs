//! The type section: a list of function signatures, each a `func` form
//! tag, a parameter list, and at most one result type.

use vstd::prelude::*;
use super::{Parser, ParseError, Type, spec_value_type, spec_func_type_tag};
use super::varint::{spec_varuint32, spec_varuint7, spec_varuint1};

verus! {

/// A function signature: the `func` form, its parameter types in order,
/// and zero or one result type.
#[derive(Clone, Debug, PartialEq, Eq)]
pub struct FuncType {
    pub form: Type,
    pub param_types: Vec<Type>,
    pub return_type: Option<Type>,
}

/// The mathematical shape of a function signature.
pub struct FuncTypeV {
    pub form: Type,
    pub param_types: Seq<Type>,
    pub return_type: Option<Type>,
}

impl DeepView for FuncType {
    type V = FuncTypeV;

    open spec fn deep_view(&self) -> FuncTypeV {
        FuncTypeV {
            form: self.form,
            param_types: self.param_types.deep_view(),
            return_type: self.return_type,
        }
    }
}

/// Reading `n` value types in sequence.
pub open spec fn spec_value_types(d: Seq<u8>, pos: int, n: nat) -> Result<
    (Seq<Type>, int),
    ParseError,
>
    decreases n,
{
    if n == 0 {
        Ok((Seq::empty(), pos))
    } else {
        match spec_value_type(d, pos) {
            Err(e) => Err(e),
            Ok((v, p)) => match spec_value_types(d, p, (n - 1) as nat) {
                Err(e) => Err(e),
                Ok((s, p2)) => Ok((seq![v] + s, p2)),
            },
        }
    }
}

/// Reading one function signature: the `func` form tag, a count-prefixed
/// parameter list, then a 1-bit flag gating a single result type.
pub open spec fn spec_func_type(d: Seq<u8>, pos: int) -> Result<(FuncTypeV, int), ParseError> {
    match spec_varuint7(d, pos) {
        Err(e) => Err(e),
        Ok((tag, p)) => match spec_func_type_tag(tag) {
            Err(e) => Err(e),
            Ok(form) => match spec_varuint32(d, p) {
                Err(e) => Err(e),
                Ok((n, p2)) => match spec_value_types(d, p2, n as nat) {
                    Err(e) => Err(e),
                    Ok((params, p3)) => match spec_varuint1(d, p3) {
                        Err(e) => Err(e),
                        Ok((has_result, p4)) => if has_result {
                            match spec_value_type(d, p4) {
                                Err(e) => Err(e),
                                Ok((ret, p5)) => Ok(
                                    (
                                        FuncTypeV {
                                            form,
                                            param_types: params,
                                            return_type: Some(ret),
                                        },
                                        p5,
                                    ),
                                ),
                            }
                        } else {
                            Ok(
                                (
                                    FuncTypeV { form, param_types: params, return_type: None },
                                    p4,
                                ),
                            )
                        },
                    },
                },
            },
        },
    }
}

/// Reading `n` function signatures in sequence.
pub open spec fn spec_func_types(d: Seq<u8>, pos: int, n: nat) -> Result<
    (Seq<FuncTypeV>, int),
    ParseError,
>
    decreases n,
{
    if n == 0 {
        Ok((Seq::empty(), pos))
    } else {
        match spec_func_type(d, pos) {
            Err(e) => Err(e),
            Ok((v, p)) => match spec_func_types(d, p, (n - 1) as nat) {
                Err(e) => Err(e),
                Ok((s, p2)) => Ok((seq![v] + s, p2)),
            },
        }
    }
}

/// Reading the type section: a count, then that many signatures.
pub open spec fn spec_type_section(d: Seq<u8>, pos: int) -> Result<
    (Seq<FuncTypeV>, int),
    ParseError,
> {
    match spec_varuint32(d, pos) {
        Err(e) => Err(e),
        Ok((n, p)) => spec_func_types(d, p, n as nat),
    }
}

impl Parser {
    /// Reads one function signature.
    pub fn read_func_type(&mut self) -> (r: Result<FuncType, ParseError>)
        requires
            old(self).wf(),
        ensures
            final(self).wf(),
            final(self).data == old(self).data,
            old(self).pos <= final(self).pos,
            match spec_func_type(old(self).data@, old(self).pos as int) {
                Ok((v, p)) => r matches Ok(x) && x.deep_view() == v && final(self).pos == p,
                Err(e) => r matches Err(e2) && e2 == e,
            },
    {
        let tag = match self.read_varuint7() {
            Ok(t) => t,
            Err(e) => {
                return Err(e);
            },
        };
        let form = match Type::func_type(tag) {
            Ok(t) => t,
            Err(e) => {
                return Err(e);
            },
        };
        let ghost p_count = self.pos as int;
        let n = match self.read_varuint32() {
            Ok(v) => v,
            Err(e) => {
                return Err(e);
            },
        };
        let ghost d = self.data@;
        let ghost p0 = self.pos as int;
        let mut params: Vec<Type> = Vec::new();
        let mut i: u32 = 0;
        proof {
            assert(params.deep_view() =~= Seq::<Type>::empty());
        }
        while i < n
            invariant
                self.wf(),
                self.data == old(self).data,
                self.data@ == d,
                old(self).pos <= self.pos,
                i <= n,
                p0 <= self.pos as int,
                spec_varuint7(d, old(self).pos as int) matches Ok((t, pt)) && spec_func_type_tag(
                    t,
                ) == Ok::<Type, ParseError>(form) && pt == p_count,
                spec_varuint32(d, p_count) == Ok::<(u32, int), ParseError>((n, p0)),
                match spec_value_types(d, self.pos as int, (n - i) as nat) {
                    Ok((s, p)) => spec_value_types(d, p0, n as nat) == Ok::<
                        (Seq<Type>, int),
                        ParseError,
                    >((params.deep_view() + s, p)),
                    Err(e) => spec_value_types(d, p0, n as nat) == Err::<
                        (Seq<Type>, int),
                        ParseError,
                    >(e),
                },
            decreases n - i,
        {
            let ghost prev = params.deep_view();
            let ty = match self.read_value_type() {
                Ok(t) => t,
                Err(e) => {
                    return Err(e);
                },
            };
            params.push(ty);
            i = i + 1;
            proof {
                assert(params.deep_view() =~= prev.push(ty));
                match spec_value_types(d, self.pos as int, (n - i) as nat) {
                    Ok((s, p)) => {
                        assert(prev + (seq![ty] + s) =~= prev.push(ty) + s);
                    },
                    Err(e) => {},
                }
            }
        }
        proof {
            assert(params.deep_view() + Seq::<Type>::empty() =~= params.deep_view());
        }
        let has_result = match self.read_varuint1() {
            Ok(f) => f,
            Err(e) => {
                return Err(e);
            },
        };
        let return_type = if has_result {
            match self.read_value_type() {
                Ok(t) => Some(t),
                Err(e) => {
                    return Err(e);
                },
            }
        } else {
            None
        };
        Ok(FuncType { form, param_types: params, return_type })
    }

    /// Reads the type section's list of function signatures.
    pub fn parse_type_section(&mut self, payload_len: u32) -> (r: Result<Vec<FuncType>, ParseError>)
        requires
            old(self).wf(),
        ensures
            final(self).wf(),
            final(self).data == old(self).data,
            old(self).pos <= final(self).pos,
            match spec_type_section(old(self).data@, old(self).pos as int) {
                Ok((s, p)) => r matches Ok(v) && v.deep_view() == s && final(self).pos == p,
                Err(e) => r matches Err(e2) && e2 == e,
            },
    {
        let n = match self.read_varuint32() {
            Ok(v) => v,
            Err(e) => {
                return Err(e);
            },
        };
        let ghost d = self.data@;
        let ghost p0 = self.pos as int;
        let mut entries: Vec<FuncType> = Vec::new();
        let mut i: u32 = 0;
        proof {
            assert(entries.deep_view() =~= Seq::<FuncTypeV>::empty());
        }
        while i < n
            invariant
                self.wf(),
                self.data == old(self).data,
                self.data@ == d,
                old(self).pos <= self.pos,
                i <= n,
                spec_varuint32(d, old(self).pos as int) == Ok::<(u32, int), ParseError>((n, p0)),
                match spec_func_types(d, self.pos as int, (n - i) as nat) {
                    Ok((s, p)) => spec_func_types(d, p0, n as nat) == Ok::<
                        (Seq<FuncTypeV>, int),
                        ParseError,
                    >((entries.deep_view() + s, p)),
                    Err(e) => spec_func_types(d, p0, n as nat) == Err::<
                        (Seq<FuncTypeV>, int),
                        ParseError,
                    >(e),
                },
            decreases n - i,
        {
            let ghost prev = entries.deep_view();
            let entry = match self.read_func_type() {
                Ok(x) => x,
                Err(e) => {
                    return Err(e);
                },
            };
            entries.push(entry);
            i = i + 1;
            proof {
                assert(entries.deep_view() =~= prev.push(entry.deep_view()));
                match spec_func_types(d, self.pos as int, (n - i) as nat) {
                    Ok((s, p)) => {
                        assert(prev + (seq![entry.deep_view()] + s) =~= prev.push(
                            entry.deep_view(),
                        ) + s);
                    },
                    Err(e) => {},
                }
            }
        }
        proof {
            assert(entries.deep_view() + Seq::<FuncTypeV>::empty() =~= entries.deep_view());
        }
        Ok(entries)
    }
}

} // verus!
