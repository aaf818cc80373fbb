//! Structural validation of a decoded module: a rule table over the
//! decoded sections, applied after a fully successful decode. The one
//! rule today is the limits invariant of every memory, table and global
//! entry.

use vstd::prelude::*;
use crate::parser::{ParseResult, ResizableLimits};
use crate::parser::memory_section::MemoryType;
use crate::parser::table_section::TableEntry;
use crate::parser::global_section::{GlobalType, GlobalVariable};

verus! {

/// A decoded entity that carries a structural invariant.
pub trait Validate {
    /// What it means for the entity to be structurally valid.
    spec fn spec_valid(&self) -> bool;

    /// Checks the structural invariant.
    fn is_valid(&self) -> (r: bool)
        ensures
            r == self.spec_valid(),
    ;
}

impl<T: Validate> Validate for Vec<T> {
    /// A list is valid when every entry is.
    open spec fn spec_valid(&self) -> bool {
        forall|i: int| 0 <= i < self@.len() ==> #[trigger] self@[i].spec_valid()
    }

    fn is_valid(&self) -> (r: bool) {
        let mut i: usize = 0;
        while i < self.len()
            invariant
                i <= self@.len(),
                forall|j: int| 0 <= j < i ==> #[trigger] self@[j].spec_valid(),
            decreases self@.len() - i,
        {
            if !self[i].is_valid() {
                return false;
            }
            i = i + 1;
        }
        true
    }
}

impl<T: Validate> Validate for Option<T> {
    /// An absent section is valid; a present one is valid when its
    /// contents are.
    open spec fn spec_valid(&self) -> bool {
        match self {
            Some(o) => o.spec_valid(),
            None => true,
        }
    }

    fn is_valid(&self) -> (r: bool) {
        match self.as_ref() {
            Some(o) => o.is_valid(),
            None => true,
        }
    }
}

impl Validate for ResizableLimits {
    /// The limits invariant: a declared maximum is never below the
    /// initial size.
    open spec fn spec_valid(&self) -> bool {
        match self.maximum {
            Some(max) => self.initial <= max,
            None => true,
        }
    }

    fn is_valid(&self) -> (r: bool) {
        match self.maximum {
            Some(max) => self.initial <= max,
            None => true,
        }
    }
}

impl Validate for MemoryType {
    /// A memory is valid when its limits are.
    open spec fn spec_valid(&self) -> bool {
        self.limits.spec_valid()
    }

    fn is_valid(&self) -> (r: bool) {
        self.limits.is_valid()
    }
}

impl Validate for TableEntry {
    /// A table is valid when its limits are.
    open spec fn spec_valid(&self) -> bool {
        self.limits.spec_valid()
    }

    fn is_valid(&self) -> (r: bool) {
        self.limits.is_valid()
    }
}

impl Validate for GlobalType {
    /// No structural rule constrains a global type today.
    open spec fn spec_valid(&self) -> bool {
        true
    }

    fn is_valid(&self) -> (r: bool) {
        true
    }
}

impl Validate for GlobalVariable {
    /// A global is valid when its type is.
    open spec fn spec_valid(&self) -> bool {
        self.typ.spec_valid()
    }

    fn is_valid(&self) -> (r: bool) {
        self.typ.is_valid()
    }
}

/// The structural pass over a fully decoded module.
pub struct Validator {
    pub parse_result: ParseResult,
}

impl Validator {
    /// Takes ownership of a decode result to validate.
    pub fn new(res: ParseResult) -> (r: Validator)
        ensures
            r.parse_result == res,
    {
        Validator { parse_result: res }
    }

    /// Applies the limits invariant to every memory, table and global
    /// entry of the module, and reports whether all of them hold.
    pub fn validate(&self) -> (r: bool)
        ensures
            r == (self.parse_result.memory_types.spec_valid()
                && self.parse_result.table_entries.spec_valid()
                && self.parse_result.global_variables.spec_valid()),
    {
        if !self.parse_result.memory_types.is_valid() {
            return false;
        }
        if !self.parse_result.table_entries.is_valid() {
            return false;
        }
        if !self.parse_result.global_variables.is_valid() {
            return false;
        }
        true
    }
}

} // verus!
