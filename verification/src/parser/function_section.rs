//! The function section: a flat list of type-index references, one per
//! defined function, in declaration order.

use vstd::prelude::*;
use super::{Parser, ParseError, FnId};
use super::varint::spec_varuint32;

verus! {

/// Reading one function index.
pub open spec fn spec_fn_id(d: Seq<u8>, pos: int) -> Result<(FnId, int), ParseError> {
    match spec_varuint32(d, pos) {
        Err(e) => Err(e),
        Ok((v, p)) => Ok((FnId(v), p)),
    }
}

/// Reading `n` function indices in sequence.
pub open spec fn spec_fn_ids(d: Seq<u8>, pos: int, n: nat) -> Result<(Seq<FnId>, int), ParseError>
    decreases n,
{
    if n == 0 {
        Ok((Seq::empty(), pos))
    } else {
        match spec_fn_id(d, pos) {
            Err(e) => Err(e),
            Ok((v, p)) => match spec_fn_ids(d, p, (n - 1) as nat) {
                Err(e) => Err(e),
                Ok((s, p2)) => Ok((seq![v] + s, p2)),
            },
        }
    }
}

/// Reading the function section: a count, then that many type-index
/// references.
pub open spec fn spec_function_section(d: Seq<u8>, pos: int) -> Result<
    (Seq<FnId>, int),
    ParseError,
> {
    match spec_varuint32(d, pos) {
        Err(e) => Err(e),
        Ok((n, p)) => spec_fn_ids(d, p, n as nat),
    }
}

impl Parser {
    /// Reads one function index.
    pub fn read_fn_id(&mut self) -> (r: Result<FnId, ParseError>)
        requires
            old(self).wf(),
        ensures
            final(self).wf(),
            final(self).data == old(self).data,
            old(self).pos <= final(self).pos,
            match spec_fn_id(old(self).data@, old(self).pos as int) {
                Ok((v, p)) => r matches Ok(x) && x == v && final(self).pos == p,
                Err(e) => r matches Err(e2) && e2 == e,
            },
    {
        match self.read_varuint32() {
            Ok(v) => Ok(FnId(v)),
            Err(e) => Err(e),
        }
    }

    /// Reads the function section's list of type-index references.
    pub fn parse_function_section(&mut self, payload_len: u32) -> (r: Result<
        Vec<FnId>,
        ParseError,
    >)
        requires
            old(self).wf(),
        ensures
            final(self).wf(),
            final(self).data == old(self).data,
            old(self).pos <= final(self).pos,
            match spec_function_section(old(self).data@, old(self).pos as int) {
                Ok((s, p)) => r matches Ok(v) && v.deep_view() == s && final(self).pos == p,
                Err(e) => r matches Err(e2) && e2 == e,
            },
    {
        let n = match self.read_varuint32() {
            Ok(v) => v,
            Err(e) => {
                return Err(e);
            },
        };
        let ghost d = self.data@;
        let ghost p0 = self.pos as int;
        let mut ids: Vec<FnId> = Vec::new();
        let mut i: u32 = 0;
        proof {
            assert(ids.deep_view() =~= Seq::<FnId>::empty());
            assert(Seq::<FnId>::empty() + Seq::<FnId>::empty() =~= Seq::<FnId>::empty());
        }
        while i < n
            invariant
                self.wf(),
                self.data == old(self).data,
                self.data@ == d,
                old(self).pos <= self.pos,
                i <= n,
                spec_varuint32(d, old(self).pos as int) == Ok::<(u32, int), ParseError>((n, p0)),
                match spec_fn_ids(d, self.pos as int, (n - i) as nat) {
                    Ok((s, p)) => spec_fn_ids(d, p0, n as nat) == Ok::<(Seq<FnId>, int), ParseError>(
                        (ids.deep_view() + s, p),
                    ),
                    Err(e) => spec_fn_ids(d, p0, n as nat) == Err::<(Seq<FnId>, int), ParseError>(
                        e,
                    ),
                },
            decreases n - i,
        {
            let ghost prev = ids.deep_view();
            let id = match self.read_fn_id() {
                Ok(x) => x,
                Err(e) => {
                    return Err(e);
                },
            };
            ids.push(id);
            i = i + 1;
            proof {
                assert(ids.deep_view() =~= prev.push(id));
                match spec_fn_ids(d, self.pos as int, (n - i) as nat) {
                    Ok((s, p)) => {
                        assert(prev + (seq![id] + s) =~= prev.push(id) + s);
                    },
                    Err(e) => {},
                }
            }
        }
        proof {
            assert(ids.deep_view() + Seq::<FnId>::empty() =~= ids.deep_view());
        }
        Ok(ids)
    }
}

} // verus!
