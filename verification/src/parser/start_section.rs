//! The start section: a single function index.

use vstd::prelude::*;
use super::{Parser, ParseError, FnId};
use super::function_section::spec_fn_id;

verus! {

/// Reading the start section: one function index, not count-prefixed.
pub open spec fn spec_start_section(d: Seq<u8>, pos: int) -> Result<(FnId, int), ParseError> {
    spec_fn_id(d, pos)
}

impl Parser {
    /// Reads the start section's single function index.
    pub fn parse_start_section(&mut self, payload_len: u32) -> (r: Result<FnId, ParseError>)
        requires
            old(self).wf(),
        ensures
            final(self).wf(),
            final(self).data == old(self).data,
            old(self).pos <= final(self).pos,
            match spec_start_section(old(self).data@, old(self).pos as int) {
                Ok((v, p)) => r matches Ok(x) && x == v && final(self).pos == p,
                Err(e) => r matches Err(e2) && e2 == e,
            },
    {
        self.read_fn_id()
    }
}

} // verus!
