//! The instruction decoder: a single leading byte maps to an opcode tag
//! across the defined instruction ranges; initializer expressions are one
//! instruction followed by the mandatory `end` terminator.

use vstd::prelude::*;
use super::{Parser, ParseError};

verus! {

/// One opcode tag per defined instruction byte: control flow, calls,
/// parametric and variable access, memory access, constants, comparisons,
/// numeric operators, conversions and reinterpretations.
#[derive(Clone, Copy, Debug, PartialEq, Eq, Structural)]
#[allow(non_camel_case_types)]
pub enum Opcode {
    unreachable,
    nop,
    block,
    loop_,
    if_,
    else_,
    end,
    br,
    br_if,
    br_table,
    return_,
    call_,
    call_indirect,
    drop,
    select,
    get_local,
    set_local,
    tee_local,
    get_global,
    set_global,
    i32_load,
    i64_load,
    f32_load,
    f64_load,
    i32_load8_s,
    i32_load8_u,
    i32_load16_s,
    i32_load16_u,
    i64_load8_s,
    i64_load8_u,
    i64_load16_s,
    i64_load16_u,
    i64_load32_s,
    i64_load32_u,
    i32_store,
    i64_store,
    f32_store,
    f64_store,
    i32_store8,
    i32_store16,
    i64_store8,
    i64_store16,
    i64_store32,
    current_memory,
    grow_memory,
    i32_const,
    i64_const,
    f32_const,
    f64_const,
    i32_eqz,
    i32_eq,
    i32_ne,
    i32_lt_s,
    i32_lt_u,
    i32_gt_s,
    i32_gt_u,
    i32_le_s,
    i32_le_u,
    i32_ge_s,
    i32_ge_u,
    i64_eqz,
    i64_eq,
    i64_ne,
    i64_lt_s,
    i64_lt_u,
    i64_gt_s,
    i64_gt_u,
    i64_le_s,
    i64_le_u,
    i64_ge_s,
    i64_ge_u,
    f32_eq,
    f32_ne,
    f32_lt,
    f32_gt,
    f32_le,
    f32_ge,
    f64_eq,
    f64_ne,
    f64_lt,
    f64_gt,
    f64_le,
    f64_ge,
    i32_clz,
    i32_ctz,
    i32_popcnt,
    i32_add,
    i32_sub,
    i32_mul,
    i32_div_s,
    i32_div_u,
    i32_rem_s,
    i32_rem_u,
    i32_and,
    i32_or,
    i32_xor,
    i32_shl,
    i32_shr_s,
    i32_shr_u,
    i32_rotl,
    i32_rotr,
    i64_clz,
    i64_ctz,
    i64_popcnt,
    i64_add,
    i64_sub,
    i64_mul,
    i64_div_s,
    i64_div_u,
    i64_rem_s,
    i64_rem_u,
    i64_and,
    i64_or,
    i64_xor,
    i64_shl,
    i64_shr_s,
    i64_shr_u,
    i64_rotl,
    i64_rotr,
    f32_abs,
    f32_neg,
    f32_ceil,
    f32_floor,
    f32_trunc,
    f32_nearest,
    f32_sqrt,
    f32_add,
    f32_sub,
    f32_mul,
    f32_div,
    f32_min,
    f32_max,
    f32_copysign,
    f64_abs,
    f64_neg,
    f64_ceil,
    f64_floor,
    f64_trunc,
    f64_nearest,
    f64_sqrt,
    f64_add,
    f64_sub,
    f64_mul,
    f64_div,
    f64_min,
    f64_max,
    f64_copysign,
    i32_wrap_i64,
    i32_trunc_s_f32,
    i32_trunc_u_f32,
    i32_trunc_s_f64,
    i32_trunc_u_f64,
    i64_extend_s_i32,
    i64_extend_u_i32,
    i64_trunc_s_f32,
    i64_trunc_u_f32,
    i64_trunc_s_f64,
    i64_trunc_u_f64,
    f32_convert_s_i32,
    f32_convert_u_i32,
    f32_convert_s_i64,
    f32_convert_u_i64,
    f32_demote_f64,
    f64_convert_s_i32,
    f64_convert_u_i32,
    f64_convert_s_i64,
    f64_convert_u_i64,
    f64_promote_f32,
    i32_reinterpret_f32,
    i64_reinterpret_f64,
    f32_reinterpret_i32,
    f64_reinterpret_i64,
}

/// A decoded instruction: the opcode tag alone. Immediate operands are
/// not decoded; every instruction occupies exactly one byte.
#[derive(Clone, Copy, Debug, PartialEq, Eq, Structural)]
pub struct Op {
    pub opcode: Opcode,
}

/// A constant-expression initializer: exactly one instruction, which the
/// decoder checks is followed by the `end` opcode.
#[derive(Clone, Copy, Debug, PartialEq, Eq, Structural)]
pub struct InitExpr(pub Op);

impl DeepView for Opcode {
    type V = Opcode;

    open spec fn deep_view(&self) -> Opcode {
        *self
    }
}

impl DeepView for Op {
    type V = Op;

    open spec fn deep_view(&self) -> Op {
        *self
    }
}

impl DeepView for InitExpr {
    type V = InitExpr;

    open spec fn deep_view(&self) -> InitExpr {
        *self
    }
}

/// The opcode tag of an instruction byte; bytes outside the defined
/// ranges are an `InvalidOpcode` failure.
pub open spec fn spec_opcode_from_byte(b: u8) -> Result<Opcode, ParseError> {
    match b {
        0x00 => Ok(Opcode::unreachable),
        0x01 => Ok(Opcode::nop),
        0x02 => Ok(Opcode::block),
        0x03 => Ok(Opcode::loop_),
        0x04 => Ok(Opcode::if_),
        0x05 => Ok(Opcode::else_),
        0x0b => Ok(Opcode::end),
        0x0c => Ok(Opcode::br),
        0x0d => Ok(Opcode::br_if),
        0x0e => Ok(Opcode::br_table),
        0x0f => Ok(Opcode::return_),
        0x10 => Ok(Opcode::call_),
        0x11 => Ok(Opcode::call_indirect),
        0x1a => Ok(Opcode::drop),
        0x1b => Ok(Opcode::select),
        0x20 => Ok(Opcode::get_local),
        0x21 => Ok(Opcode::set_local),
        0x22 => Ok(Opcode::tee_local),
        0x23 => Ok(Opcode::get_global),
        0x24 => Ok(Opcode::set_global),
        0x28 => Ok(Opcode::i32_load),
        0x29 => Ok(Opcode::i64_load),
        0x2a => Ok(Opcode::f32_load),
        0x2b => Ok(Opcode::f64_load),
        0x2c => Ok(Opcode::i32_load8_s),
        0x2d => Ok(Opcode::i32_load8_u),
        0x2e => Ok(Opcode::i32_load16_s),
        0x2f => Ok(Opcode::i32_load16_u),
        0x30 => Ok(Opcode::i64_load8_s),
        0x31 => Ok(Opcode::i64_load8_u),
        0x32 => Ok(Opcode::i64_load16_s),
        0x33 => Ok(Opcode::i64_load16_u),
        0x34 => Ok(Opcode::i64_load32_s),
        0x35 => Ok(Opcode::i64_load32_u),
        0x36 => Ok(Opcode::i32_store),
        0x37 => Ok(Opcode::i64_store),
        0x38 => Ok(Opcode::f32_store),
        0x39 => Ok(Opcode::f64_store),
        0x3a => Ok(Opcode::i32_store8),
        0x3b => Ok(Opcode::i32_store16),
        0x3c => Ok(Opcode::i64_store8),
        0x3d => Ok(Opcode::i64_store16),
        0x3e => Ok(Opcode::i64_store32),
        0x3f => Ok(Opcode::current_memory),
        0x40 => Ok(Opcode::grow_memory),
        0x41 => Ok(Opcode::i32_const),
        0x42 => Ok(Opcode::i64_const),
        0x43 => Ok(Opcode::f32_const),
        0x44 => Ok(Opcode::f64_const),
        0x45 => Ok(Opcode::i32_eqz),
        0x46 => Ok(Opcode::i32_eq),
        0x47 => Ok(Opcode::i32_ne),
        0x48 => Ok(Opcode::i32_lt_s),
        0x49 => Ok(Opcode::i32_lt_u),
        0x4a => Ok(Opcode::i32_gt_s),
        0x4b => Ok(Opcode::i32_gt_u),
        0x4c => Ok(Opcode::i32_le_s),
        0x4d => Ok(Opcode::i32_le_u),
        0x4e => Ok(Opcode::i32_ge_s),
        0x4f => Ok(Opcode::i32_ge_u),
        0x50 => Ok(Opcode::i64_eqz),
        0x51 => Ok(Opcode::i64_eq),
        0x52 => Ok(Opcode::i64_ne),
        0x53 => Ok(Opcode::i64_lt_s),
        0x54 => Ok(Opcode::i64_lt_u),
        0x55 => Ok(Opcode::i64_gt_s),
        0x56 => Ok(Opcode::i64_gt_u),
        0x57 => Ok(Opcode::i64_le_s),
        0x58 => Ok(Opcode::i64_le_u),
        0x59 => Ok(Opcode::i64_ge_s),
        0x5a => Ok(Opcode::i64_ge_u),
        0x5b => Ok(Opcode::f32_eq),
        0x5c => Ok(Opcode::f32_ne),
        0x5d => Ok(Opcode::f32_lt),
        0x5e => Ok(Opcode::f32_gt),
        0x5f => Ok(Opcode::f32_le),
        0x60 => Ok(Opcode::f32_ge),
        0x61 => Ok(Opcode::f64_eq),
        0x62 => Ok(Opcode::f64_ne),
        0x63 => Ok(Opcode::f64_lt),
        0x64 => Ok(Opcode::f64_gt),
        0x65 => Ok(Opcode::f64_le),
        0x66 => Ok(Opcode::f64_ge),
        0x67 => Ok(Opcode::i32_clz),
        0x68 => Ok(Opcode::i32_ctz),
        0x69 => Ok(Opcode::i32_popcnt),
        0x6a => Ok(Opcode::i32_add),
        0x6b => Ok(Opcode::i32_sub),
        0x6c => Ok(Opcode::i32_mul),
        0x6d => Ok(Opcode::i32_div_s),
        0x6e => Ok(Opcode::i32_div_u),
        0x6f => Ok(Opcode::i32_rem_s),
        0x70 => Ok(Opcode::i32_rem_u),
        0x71 => Ok(Opcode::i32_and),
        0x72 => Ok(Opcode::i32_or),
        0x73 => Ok(Opcode::i32_xor),
        0x74 => Ok(Opcode::i32_shl),
        0x75 => Ok(Opcode::i32_shr_s),
        0x76 => Ok(Opcode::i32_shr_u),
        0x77 => Ok(Opcode::i32_rotl),
        0x78 => Ok(Opcode::i32_rotr),
        0x79 => Ok(Opcode::i64_clz),
        0x7a => Ok(Opcode::i64_ctz),
        0x7b => Ok(Opcode::i64_popcnt),
        0x7c => Ok(Opcode::i64_add),
        0x7d => Ok(Opcode::i64_sub),
        0x7e => Ok(Opcode::i64_mul),
        0x7f => Ok(Opcode::i64_div_s),
        0x80 => Ok(Opcode::i64_div_u),
        0x81 => Ok(Opcode::i64_rem_s),
        0x82 => Ok(Opcode::i64_rem_u),
        0x83 => Ok(Opcode::i64_and),
        0x84 => Ok(Opcode::i64_or),
        0x85 => Ok(Opcode::i64_xor),
        0x86 => Ok(Opcode::i64_shl),
        0x87 => Ok(Opcode::i64_shr_s),
        0x88 => Ok(Opcode::i64_shr_u),
        0x89 => Ok(Opcode::i64_rotl),
        0x8a => Ok(Opcode::i64_rotr),
        0x8b => Ok(Opcode::f32_abs),
        0x8c => Ok(Opcode::f32_neg),
        0x8d => Ok(Opcode::f32_ceil),
        0x8e => Ok(Opcode::f32_floor),
        0x8f => Ok(Opcode::f32_trunc),
        0x90 => Ok(Opcode::f32_nearest),
        0x91 => Ok(Opcode::f32_sqrt),
        0x92 => Ok(Opcode::f32_add),
        0x93 => Ok(Opcode::f32_sub),
        0x94 => Ok(Opcode::f32_mul),
        0x95 => Ok(Opcode::f32_div),
        0x96 => Ok(Opcode::f32_min),
        0x97 => Ok(Opcode::f32_max),
        0x98 => Ok(Opcode::f32_copysign),
        0x99 => Ok(Opcode::f64_abs),
        0x9a => Ok(Opcode::f64_neg),
        0x9b => Ok(Opcode::f64_ceil),
        0x9c => Ok(Opcode::f64_floor),
        0x9d => Ok(Opcode::f64_trunc),
        0x9e => Ok(Opcode::f64_nearest),
        0x9f => Ok(Opcode::f64_sqrt),
        0xa0 => Ok(Opcode::f64_add),
        0xa1 => Ok(Opcode::f64_sub),
        0xa2 => Ok(Opcode::f64_mul),
        0xa3 => Ok(Opcode::f64_div),
        0xa4 => Ok(Opcode::f64_min),
        0xa5 => Ok(Opcode::f64_max),
        0xa6 => Ok(Opcode::f64_copysign),
        0xa7 => Ok(Opcode::i32_wrap_i64),
        0xa8 => Ok(Opcode::i32_trunc_s_f32),
        0xa9 => Ok(Opcode::i32_trunc_u_f32),
        0xaa => Ok(Opcode::i32_trunc_s_f64),
        0xab => Ok(Opcode::i32_trunc_u_f64),
        0xac => Ok(Opcode::i64_extend_s_i32),
        0xad => Ok(Opcode::i64_extend_u_i32),
        0xae => Ok(Opcode::i64_trunc_s_f32),
        0xaf => Ok(Opcode::i64_trunc_u_f32),
        0xb0 => Ok(Opcode::i64_trunc_s_f64),
        0xb1 => Ok(Opcode::i64_trunc_u_f64),
        0xb2 => Ok(Opcode::f32_convert_s_i32),
        0xb3 => Ok(Opcode::f32_convert_u_i32),
        0xb4 => Ok(Opcode::f32_convert_s_i64),
        0xb5 => Ok(Opcode::f32_convert_u_i64),
        0xb6 => Ok(Opcode::f32_demote_f64),
        0xb7 => Ok(Opcode::f64_convert_s_i32),
        0xb8 => Ok(Opcode::f64_convert_u_i32),
        0xb9 => Ok(Opcode::f64_convert_s_i64),
        0xba => Ok(Opcode::f64_convert_u_i64),
        0xbb => Ok(Opcode::f64_promote_f32),
        0xbc => Ok(Opcode::i32_reinterpret_f32),
        0xbd => Ok(Opcode::i64_reinterpret_f64),
        0xbe => Ok(Opcode::f32_reinterpret_i32),
        0xbf => Ok(Opcode::f64_reinterpret_i64),
        _ => Err(ParseError::InvalidOpcode),
    }
}

/// Decodes one instruction byte to its opcode tag.
pub fn opcode_from_byte(b: u8) -> (r: Result<Opcode, ParseError>)
    ensures
        r == spec_opcode_from_byte(b),
{
    match b {
        0x00 => Ok(Opcode::unreachable),
        0x01 => Ok(Opcode::nop),
        0x02 => Ok(Opcode::block),
        0x03 => Ok(Opcode::loop_),
        0x04 => Ok(Opcode::if_),
        0x05 => Ok(Opcode::else_),
        0x0b => Ok(Opcode::end),
        0x0c => Ok(Opcode::br),
        0x0d => Ok(Opcode::br_if),
        0x0e => Ok(Opcode::br_table),
        0x0f => Ok(Opcode::return_),
        0x10 => Ok(Opcode::call_),
        0x11 => Ok(Opcode::call_indirect),
        0x1a => Ok(Opcode::drop),
        0x1b => Ok(Opcode::select),
        0x20 => Ok(Opcode::get_local),
        0x21 => Ok(Opcode::set_local),
        0x22 => Ok(Opcode::tee_local),
        0x23 => Ok(Opcode::get_global),
        0x24 => Ok(Opcode::set_global),
        0x28 => Ok(Opcode::i32_load),
        0x29 => Ok(Opcode::i64_load),
        0x2a => Ok(Opcode::f32_load),
        0x2b => Ok(Opcode::f64_load),
        0x2c => Ok(Opcode::i32_load8_s),
        0x2d => Ok(Opcode::i32_load8_u),
        0x2e => Ok(Opcode::i32_load16_s),
        0x2f => Ok(Opcode::i32_load16_u),
        0x30 => Ok(Opcode::i64_load8_s),
        0x31 => Ok(Opcode::i64_load8_u),
        0x32 => Ok(Opcode::i64_load16_s),
        0x33 => Ok(Opcode::i64_load16_u),
        0x34 => Ok(Opcode::i64_load32_s),
        0x35 => Ok(Opcode::i64_load32_u),
        0x36 => Ok(Opcode::i32_store),
        0x37 => Ok(Opcode::i64_store),
        0x38 => Ok(Opcode::f32_store),
        0x39 => Ok(Opcode::f64_store),
        0x3a => Ok(Opcode::i32_store8),
        0x3b => Ok(Opcode::i32_store16),
        0x3c => Ok(Opcode::i64_store8),
        0x3d => Ok(Opcode::i64_store16),
        0x3e => Ok(Opcode::i64_store32),
        0x3f => Ok(Opcode::current_memory),
        0x40 => Ok(Opcode::grow_memory),
        0x41 => Ok(Opcode::i32_const),
        0x42 => Ok(Opcode::i64_const),
        0x43 => Ok(Opcode::f32_const),
        0x44 => Ok(Opcode::f64_const),
        0x45 => Ok(Opcode::i32_eqz),
        0x46 => Ok(Opcode::i32_eq),
        0x47 => Ok(Opcode::i32_ne),
        0x48 => Ok(Opcode::i32_lt_s),
        0x49 => Ok(Opcode::i32_lt_u),
        0x4a => Ok(Opcode::i32_gt_s),
        0x4b => Ok(Opcode::i32_gt_u),
        0x4c => Ok(Opcode::i32_le_s),
        0x4d => Ok(Opcode::i32_le_u),
        0x4e => Ok(Opcode::i32_ge_s),
        0x4f => Ok(Opcode::i32_ge_u),
        0x50 => Ok(Opcode::i64_eqz),
        0x51 => Ok(Opcode::i64_eq),
        0x52 => Ok(Opcode::i64_ne),
        0x53 => Ok(Opcode::i64_lt_s),
        0x54 => Ok(Opcode::i64_lt_u),
        0x55 => Ok(Opcode::i64_gt_s),
        0x56 => Ok(Opcode::i64_gt_u),
        0x57 => Ok(Opcode::i64_le_s),
        0x58 => Ok(Opcode::i64_le_u),
        0x59 => Ok(Opcode::i64_ge_s),
        0x5a => Ok(Opcode::i64_ge_u),
        0x5b => Ok(Opcode::f32_eq),
        0x5c => Ok(Opcode::f32_ne),
        0x5d => Ok(Opcode::f32_lt),
        0x5e => Ok(Opcode::f32_gt),
        0x5f => Ok(Opcode::f32_le),
        0x60 => Ok(Opcode::f32_ge),
        0x61 => Ok(Opcode::f64_eq),
        0x62 => Ok(Opcode::f64_ne),
        0x63 => Ok(Opcode::f64_lt),
        0x64 => Ok(Opcode::f64_gt),
        0x65 => Ok(Opcode::f64_le),
        0x66 => Ok(Opcode::f64_ge),
        0x67 => Ok(Opcode::i32_clz),
        0x68 => Ok(Opcode::i32_ctz),
        0x69 => Ok(Opcode::i32_popcnt),
        0x6a => Ok(Opcode::i32_add),
        0x6b => Ok(Opcode::i32_sub),
        0x6c => Ok(Opcode::i32_mul),
        0x6d => Ok(Opcode::i32_div_s),
        0x6e => Ok(Opcode::i32_div_u),
        0x6f => Ok(Opcode::i32_rem_s),
        0x70 => Ok(Opcode::i32_rem_u),
        0x71 => Ok(Opcode::i32_and),
        0x72 => Ok(Opcode::i32_or),
        0x73 => Ok(Opcode::i32_xor),
        0x74 => Ok(Opcode::i32_shl),
        0x75 => Ok(Opcode::i32_shr_s),
        0x76 => Ok(Opcode::i32_shr_u),
        0x77 => Ok(Opcode::i32_rotl),
        0x78 => Ok(Opcode::i32_rotr),
        0x79 => Ok(Opcode::i64_clz),
        0x7a => Ok(Opcode::i64_ctz),
        0x7b => Ok(Opcode::i64_popcnt),
        0x7c => Ok(Opcode::i64_add),
        0x7d => Ok(Opcode::i64_sub),
        0x7e => Ok(Opcode::i64_mul),
        0x7f => Ok(Opcode::i64_div_s),
        0x80 => Ok(Opcode::i64_div_u),
        0x81 => Ok(Opcode::i64_rem_s),
        0x82 => Ok(Opcode::i64_rem_u),
        0x83 => Ok(Opcode::i64_and),
        0x84 => Ok(Opcode::i64_or),
        0x85 => Ok(Opcode::i64_xor),
        0x86 => Ok(Opcode::i64_shl),
        0x87 => Ok(Opcode::i64_shr_s),
        0x88 => Ok(Opcode::i64_shr_u),
        0x89 => Ok(Opcode::i64_rotl),
        0x8a => Ok(Opcode::i64_rotr),
        0x8b => Ok(Opcode::f32_abs),
        0x8c => Ok(Opcode::f32_neg),
        0x8d => Ok(Opcode::f32_ceil),
        0x8e => Ok(Opcode::f32_floor),
        0x8f => Ok(Opcode::f32_trunc),
        0x90 => Ok(Opcode::f32_nearest),
        0x91 => Ok(Opcode::f32_sqrt),
        0x92 => Ok(Opcode::f32_add),
        0x93 => Ok(Opcode::f32_sub),
        0x94 => Ok(Opcode::f32_mul),
        0x95 => Ok(Opcode::f32_div),
        0x96 => Ok(Opcode::f32_min),
        0x97 => Ok(Opcode::f32_max),
        0x98 => Ok(Opcode::f32_copysign),
        0x99 => Ok(Opcode::f64_abs),
        0x9a => Ok(Opcode::f64_neg),
        0x9b => Ok(Opcode::f64_ceil),
        0x9c => Ok(Opcode::f64_floor),
        0x9d => Ok(Opcode::f64_trunc),
        0x9e => Ok(Opcode::f64_nearest),
        0x9f => Ok(Opcode::f64_sqrt),
        0xa0 => Ok(Opcode::f64_add),
        0xa1 => Ok(Opcode::f64_sub),
        0xa2 => Ok(Opcode::f64_mul),
        0xa3 => Ok(Opcode::f64_div),
        0xa4 => Ok(Opcode::f64_min),
        0xa5 => Ok(Opcode::f64_max),
        0xa6 => Ok(Opcode::f64_copysign),
        0xa7 => Ok(Opcode::i32_wrap_i64),
        0xa8 => Ok(Opcode::i32_trunc_s_f32),
        0xa9 => Ok(Opcode::i32_trunc_u_f32),
        0xaa => Ok(Opcode::i32_trunc_s_f64),
        0xab => Ok(Opcode::i32_trunc_u_f64),
        0xac => Ok(Opcode::i64_extend_s_i32),
        0xad => Ok(Opcode::i64_extend_u_i32),
        0xae => Ok(Opcode::i64_trunc_s_f32),
        0xaf => Ok(Opcode::i64_trunc_u_f32),
        0xb0 => Ok(Opcode::i64_trunc_s_f64),
        0xb1 => Ok(Opcode::i64_trunc_u_f64),
        0xb2 => Ok(Opcode::f32_convert_s_i32),
        0xb3 => Ok(Opcode::f32_convert_u_i32),
        0xb4 => Ok(Opcode::f32_convert_s_i64),
        0xb5 => Ok(Opcode::f32_convert_u_i64),
        0xb6 => Ok(Opcode::f32_demote_f64),
        0xb7 => Ok(Opcode::f64_convert_s_i32),
        0xb8 => Ok(Opcode::f64_convert_u_i32),
        0xb9 => Ok(Opcode::f64_convert_s_i64),
        0xba => Ok(Opcode::f64_convert_u_i64),
        0xbb => Ok(Opcode::f64_promote_f32),
        0xbc => Ok(Opcode::i32_reinterpret_f32),
        0xbd => Ok(Opcode::i64_reinterpret_f64),
        0xbe => Ok(Opcode::f32_reinterpret_i32),
        0xbf => Ok(Opcode::f64_reinterpret_i64),
        _ => Err(ParseError::InvalidOpcode),
    }
}

/// Reading one instruction: one byte, which must be a defined opcode.
pub open spec fn spec_op(d: Seq<u8>, pos: int) -> Result<(Op, int), ParseError> {
    if pos < 0 || pos >= d.len() {
        Err(ParseError::UnexpectedEof)
    } else {
        match spec_opcode_from_byte(d[pos]) {
            Err(e) => Err(e),
            Ok(oc) => Ok((Op { opcode: oc }, pos + 1)),
        }
    }
}

/// Reading an initializer expression: one instruction, then the `end`
/// opcode byte; any other byte there is a `MalformedInitExpr` failure.
pub open spec fn spec_init_expr(d: Seq<u8>, pos: int) -> Result<(InitExpr, int), ParseError> {
    match spec_op(d, pos) {
        Err(e) => Err(e),
        Ok((op, p)) => if p >= d.len() {
            Err(ParseError::UnexpectedEof)
        } else if d[p] == 0x0b {
            Ok((InitExpr(op), p + 1))
        } else {
            Err(ParseError::MalformedInitExpr)
        },
    }
}

impl Parser {
    /// Reads one instruction.
    pub fn read_op(&mut self) -> (r: Result<Op, ParseError>)
        requires
            old(self).wf(),
        ensures
            final(self).wf(),
            final(self).data == old(self).data,
            old(self).pos <= final(self).pos,
            match spec_op(old(self).data@, old(self).pos as int) {
                Ok((op, p)) => r matches Ok(x) && x == op && final(self).pos == p,
                Err(e) => r matches Err(e2) && e2 == e,
            },
    {
        let b = match self.read_byte() {
            Ok(b) => b,
            Err(e) => {
                return Err(e);
            },
        };
        match opcode_from_byte(b) {
            Ok(oc) => Ok(Op { opcode: oc }),
            Err(e) => Err(e),
        }
    }

    /// Reads an initializer expression: one instruction plus its `end`
    /// terminator.
    pub fn read_init_expr(&mut self) -> (r: Result<InitExpr, ParseError>)
        requires
            old(self).wf(),
        ensures
            final(self).wf(),
            final(self).data == old(self).data,
            old(self).pos <= final(self).pos,
            match spec_init_expr(old(self).data@, old(self).pos as int) {
                Ok((e, p)) => r matches Ok(x) && x == e && final(self).pos == p,
                Err(e) => r matches Err(e2) && e2 == e,
            },
    {
        let op = match self.read_op() {
            Ok(op) => op,
            Err(e) => {
                return Err(e);
            },
        };
        let term = match self.read_byte() {
            Ok(b) => b,
            Err(e) => {
                return Err(e);
            },
        };
        if term != 0x0b {
            return Err(ParseError::MalformedInitExpr);
        }
        Ok(InitExpr(op))
    }
}

} // verus!
