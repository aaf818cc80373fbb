//! LEB128 variable-length integer codec: unsigned and signed decoding
//! over the cursor, parameterized by a declared bit width.

use vstd::prelude::*;
use vstd::arithmetic::power2::{
    pow2, lemma2_to64, lemma2_to64_rest, lemma_pow2_adds, lemma_pow2_pos,
};
use vstd::arithmetic::div_mod::{lemma_small_mod, lemma_mod_multiples_vanish};
use super::{Parser, ParseError};

verus! {

/// The value of a little-endian base-128 byte group: each byte adds
/// its low 7 bits at the next 7-bit slot, the first byte least significant.
pub open spec fn leb_value(s: Seq<u8>) -> nat
    decreases s.len(),
{
    if s.len() == 0 {
        0
    } else {
        (s[0] % 0x80) as nat + 0x80 * leb_value(s.subrange(1, s.len() as int))
    }
}

/// How many continuation bytes (high bit set) stand at `pos`, up to the
/// end of the data.
pub open spec fn cont_len(d: Seq<u8>, pos: int) -> nat
    decreases d.len() - pos,
{
    if pos < 0 || pos >= d.len() {
        0
    } else if d[pos] < 0x80 {
        0
    } else {
        1 + cont_len(d, pos + 1)
    }
}

/// The largest encoded byte count a `max_bits`-bit varint may use.
pub open spec fn max_leb_bytes(max_bits: u32) -> nat {
    ((max_bits + 6) / 7) as nat
}

/// Decoding an unsigned LEB128 value at `pos` with a declared bit width:
/// the value (low 64 bits of the byte group) and the position after it.
/// Fails with `VarintTooLong` as soon as a value would use more than
/// `max_leb_bytes` bytes, and with `UnexpectedEof` when the data ends
/// inside the value.
pub open spec fn spec_varuint(d: Seq<u8>, pos: int, max_bits: u32) -> Result<
    (u64, int),
    ParseError,
> {
    let c = cont_len(d, pos);
    if c >= max_leb_bytes(max_bits) {
        Err(ParseError::VarintTooLong)
    } else if pos + c >= d.len() {
        Err(ParseError::UnexpectedEof)
    } else {
        Ok(
            (
                (leb_value(d.subrange(pos, pos + c + 1)) % 0x10000000000000000) as u64,
                pos + c + 1,
            ),
        )
    }
}

/// The signed reading of a byte group: when the group is shorter than a
/// 64-bit register and its final byte carries the sign bit (0x40), the
/// value is sign-extended; otherwise it is the two's-complement reading
/// of the low 64 bits.
pub open spec fn sleb_value(s: Seq<u8>) -> int {
    let m = leb_value(s) % 0x10000000000000000;
    if s.len() > 0 && 7 * s.len() < 64 && s[s.len() - 1] % 0x80 >= 0x40 {
        leb_value(s) - pow2((7 * s.len()) as nat)
    } else if m >= 0x8000000000000000 {
        m - 0x10000000000000000
    } else {
        m as int
    }
}

/// Decoding a signed LEB128 value at `pos`: the same byte group as the
/// unsigned decoding, read as `sleb_value`.
pub open spec fn spec_varint(d: Seq<u8>, pos: int, max_bits: u32) -> Result<
    (i64, int),
    ParseError,
> {
    let c = cont_len(d, pos);
    if c >= max_leb_bytes(max_bits) {
        Err(ParseError::VarintTooLong)
    } else if pos + c >= d.len() {
        Err(ParseError::UnexpectedEof)
    } else {
        Ok((sleb_value(d.subrange(pos, pos + c + 1)) as i64, pos + c + 1))
    }
}

/// A 7-bit varuint: a single byte below 0x80.
pub open spec fn spec_varuint7(d: Seq<u8>, pos: int) -> Result<(u8, int), ParseError> {
    match spec_varuint(d, pos, 7) {
        Ok((v, p)) => Ok((v as u8, p)),
        Err(e) => Err(e),
    }
}

/// A 32-bit varuint: up to five bytes, the value truncated to 32 bits.
pub open spec fn spec_varuint32(d: Seq<u8>, pos: int) -> Result<(u32, int), ParseError> {
    match spec_varuint(d, pos, 32) {
        Ok((v, p)) => Ok(((v % 0x100000000) as u32, p)),
        Err(e) => Err(e),
    }
}

/// A 1-bit flag, encoded as a 7-bit varuint read as "non-zero".
pub open spec fn spec_varuint1(d: Seq<u8>, pos: int) -> Result<(bool, int), ParseError> {
    match spec_varuint(d, pos, 7) {
        Ok((v, p)) => Ok((v != 0, p)),
        Err(e) => Err(e),
    }
}

/// Appending a byte to a group adds its low 7 bits at the next 7-bit slot.
pub proof fn lemma_leb_snoc(s: Seq<u8>, b: u8)
    ensures
        leb_value(s.push(b)) == leb_value(s) + (b % 0x80) * pow2((7 * s.len()) as nat),
    decreases s.len(),
{
    if s.len() == 0 {
        assert(s.push(b).subrange(1, 1) =~= Seq::<u8>::empty());
        lemma2_to64();
        assert(s.push(b)[0] == b);
        assert(leb_value(s.push(b)) == (b % 0x80) as nat + 0x80 * leb_value(
            s.push(b).subrange(1, 1),
        ));
        assert(leb_value(s.push(b)) == (b % 0x80) as nat);
        assert(leb_value(s) == 0);
        assert((b % 0x80) * pow2(0) == (b % 0x80) as nat);
    } else {
        let t = s.push(b);
        assert(t.subrange(1, t.len() as int) =~= s.subrange(1, s.len() as int).push(b));
        lemma_leb_snoc(s.subrange(1, s.len() as int), b);
        let l = leb_value(s.subrange(1, s.len() as int));
        let g = (b % 0x80) as nat;
        let p = pow2((7 * (s.len() - 1)) as nat);
        lemma_pow2_adds((7 * (s.len() - 1)) as nat, 7);
        lemma2_to64();
        assert((7 * (s.len() - 1)) as nat + 7 == (7 * s.len()) as nat);
        assert(pow2((7 * s.len()) as nat) == p * 0x80);
        assert(t[0] == s[0]);
        assert(leb_value(t) == (s[0] % 0x80) as nat + 0x80 * (l + g * p));
        assert(leb_value(s) == (s[0] % 0x80) as nat + 0x80 * l);
        assert((s[0] % 0x80) as nat + 0x80 * (l + g * p) == ((s[0] % 0x80) as nat + 0x80 * l) + g
            * (p * 0x80)) by (nonlinear_arith);
    }
}

/// A group of `n` bytes encodes a value below `2^(7n)`.
pub proof fn lemma_leb_bound(s: Seq<u8>)
    ensures
        leb_value(s) < pow2((7 * s.len()) as nat),
    decreases s.len(),
{
    if s.len() == 0 {
        lemma2_to64();
    } else {
        let rest = s.subrange(1, s.len() as int);
        lemma_leb_bound(rest);
        let l = leb_value(rest);
        let g = (s[0] % 0x80) as nat;
        let p = pow2((7 * (s.len() - 1)) as nat);
        assert(g + 0x80 * l < 0x80 * p) by (nonlinear_arith)
            requires
                l < p,
                g < 0x80,
                p >= 1,
        ;
        lemma_pow2_adds((7 * (s.len() - 1)) as nat, 7);
        lemma2_to64();
    }
}

impl Parser {
    /// Reads an unsigned LEB128 value of at most `max_bits` declared bits,
    /// returning the value and the number of bytes consumed.
    pub fn read_varuint_len(&mut self, max_bits: u32) -> (r: Result<(u64, u64), ParseError>)
        requires
            old(self).wf(),
            1 <= max_bits <= 64,
        ensures
            final(self).wf(),
            final(self).data == old(self).data,
            old(self).pos <= final(self).pos,
            match spec_varuint(old(self).data@, old(self).pos as int, max_bits) {
                Ok((v, p)) => r matches Ok(x) && x.0 == v && x.1 == p - old(self).pos
                    && final(self).pos == p,
                Err(e) => r matches Err(e2) && e2 == e,
            },
    {
        let max_bytes: u64 = ((max_bits + 6) / 7) as u64;
        let ghost d = self.data@;
        let ghost start = self.pos as int;
        let mut res: u64 = 0;
        let mut count: u64 = 0;
        let mut mult: u64 = 1;
        proof {
            assert(d.subrange(start, start) =~= Seq::<u8>::empty());
            lemma2_to64();
        }
        loop
            invariant
                self.wf(),
                self.data == old(self).data,
                self.data@ == d,
                start == old(self).pos,
                d == old(self).data@,
                1 <= max_bits <= 64,
                max_bytes == max_leb_bytes(max_bits),
                1 <= max_bytes <= 10,
                self.pos == start + count,
                0 <= start,
                start + count <= d.len(),
                count <= max_bytes,
                cont_len(d, start) == count + cont_len(d, start + count),
                count <= 9 ==> mult == pow2((7 * count) as nat),
                res == leb_value(d.subrange(start, start + count)) % 0x10000000000000000,
            decreases d.len() - self.pos,
        {
            if count >= max_bytes {
                assert(cont_len(d, start) >= max_leb_bytes(max_bits));
                return Err(ParseError::VarintTooLong);
            }
            if self.pos >= self.data.len() {
                assert(cont_len(d, start + count) == 0);
                return Err(ParseError::UnexpectedEof);
            }
            let b = self.data[self.pos];
            self.pos = self.pos + 1;
            let g: u64 = (b % 0x80) as u64;
            let ghost prefix = d.subrange(start, start + count);
            let ghost lv = leb_value(prefix);
            proof {
                // with at most 9 bytes taken, the value so far is exact
                lemma_leb_bound(prefix);
                if count <= 8 {
                    lemma_pow2_adds((7 * count) as nat, 7);
                    lemma2_to64();
                }
                lemma2_to64();
                lemma2_to64_rest();
                assert(pow2((7 * count) as nat) <= pow2(63)) by {
                    if 7 * count < 63 {
                        vstd::arithmetic::power2::lemma_pow2_strictly_increases(
                            (7 * count) as nat,
                            63,
                        );
                    }
                };
                lemma_small_mod(lv, 0x10000000000000000);
                assert(res == lv);
                lemma_leb_snoc(prefix, b);
                assert(d.subrange(start, start + count + 1) =~= prefix.push(b));
            }
            let addend: u64 = if mult >= 0x8000000000000000 {
                proof {
                    // mult == pow2(7 * count) >= 2^63 forces count == 9
                    assert(count == 9) by {
                        if count <= 8 {
                            vstd::arithmetic::power2::lemma_pow2_strictly_increases(
                                (7 * count) as nat,
                                63,
                            );
                        }
                    };
                    // the tenth byte lands modulo 2^64: only its low bit remains
                    let q = g / 2;
                    let r0 = g % 2;
                    vstd::arithmetic::div_mod::lemma_fundamental_div_mod(g as int, 2);
                    assert(g * 0x8000000000000000 == q * 0x10000000000000000 + r0
                        * 0x8000000000000000) by (nonlinear_arith)
                        requires
                            g == 2 * q + r0,
                    ;
                    lemma_mod_multiples_vanish(
                        q as int,
                        lv + r0 * 0x8000000000000000,
                        0x10000000000000000,
                    );
                    lemma_small_mod(
                        (lv + r0 * 0x8000000000000000) as nat,
                        0x10000000000000000,
                    );
                }
                (g % 2) * mult
            } else {
                proof {
                    // mult == pow2(7 * count) <= 2^56, so no truncation occurs
                    assert(count <= 8) by {
                        if count == 9 {
                            lemma2_to64_rest();
                        }
                    };
                    assert(pow2((7 * count) as nat) <= pow2(56)) by {
                        if 7 * count < 56 {
                            vstd::arithmetic::power2::lemma_pow2_strictly_increases(
                                (7 * count) as nat,
                                56,
                            );
                        }
                    };
                    lemma2_to64_rest();
                    assert(g * mult <= 0x7f * 0x100000000000000) by (nonlinear_arith)
                        requires
                            g <= 0x7f,
                            mult <= 0x100000000000000,
                    ;
                    assert(lv + g * mult < 0x80 * mult) by (nonlinear_arith)
                        requires
                            lv < mult,
                            g < 0x80,
                            mult >= 1,
                    ;
                    lemma_pow2_adds((7 * count) as nat, 7);
                    lemma2_to64();
                    lemma_small_mod((lv + g * mult) as nat, 0x10000000000000000);
                }
                g * mult
            };
            res = res + addend;
            count = count + 1;
            if b < 0x80 {
                proof {
                    assert(cont_len(d, start + count - 1) == 0);
                    let c = cont_len(d, start);
                    assert(c == count - 1);
                }
                return Ok((res, count));
            }
            proof {
                assert(cont_len(d, start + count - 1) == 1 + cont_len(d, start + count));
            }
            if count < 10 {
                proof {
                    assert(count <= 9);
                    assert(mult == pow2((7 * (count - 1)) as nat));
                    lemma_pow2_adds((7 * (count - 1)) as nat, 7);
                    lemma2_to64();
                    lemma2_to64_rest();
                    assert(pow2((7 * count) as nat) <= pow2(63)) by {
                        if 7 * count < 63 {
                            vstd::arithmetic::power2::lemma_pow2_strictly_increases(
                                (7 * count) as nat,
                                63,
                            );
                        }
                    };
                }
                mult = mult * 0x80;
            }
        }
    }

    /// Reads an unsigned LEB128 value, dropping the byte count.
    pub fn read_varuint(&mut self, max_bits: u32) -> (r: Result<u64, ParseError>)
        requires
            old(self).wf(),
            1 <= max_bits <= 64,
        ensures
            final(self).wf(),
            final(self).data == old(self).data,
            old(self).pos <= final(self).pos,
            match spec_varuint(old(self).data@, old(self).pos as int, max_bits) {
                Ok((v, p)) => r matches Ok(x) && x == v && final(self).pos == p,
                Err(e) => r matches Err(e2) && e2 == e,
            },
    {
        match self.read_varuint_len(max_bits) {
            Ok((v, _)) => Ok(v),
            Err(e) => Err(e),
        }
    }

    /// Reads a 1-bit flag.
    pub fn read_varuint1(&mut self) -> (r: Result<bool, ParseError>)
        requires
            old(self).wf(),
        ensures
            final(self).wf(),
            final(self).data == old(self).data,
            old(self).pos <= final(self).pos,
            match spec_varuint1(old(self).data@, old(self).pos as int) {
                Ok((v, p)) => r matches Ok(x) && x == v && final(self).pos == p,
                Err(e) => r matches Err(e2) && e2 == e,
            },
    {
        match self.read_varuint(7) {
            Ok(v) => Ok(v != 0),
            Err(e) => Err(e),
        }
    }

    /// Reads a 7-bit varuint: a single byte value.
    pub fn read_varuint7(&mut self) -> (r: Result<u8, ParseError>)
        requires
            old(self).wf(),
        ensures
            final(self).wf(),
            final(self).data == old(self).data,
            old(self).pos <= final(self).pos,
            match spec_varuint7(old(self).data@, old(self).pos as int) {
                Ok((v, p)) => r matches Ok(x) && x == v && final(self).pos == p,
                Err(e) => r matches Err(e2) && e2 == e,
            },
    {
        match self.read_varuint(7) {
            Ok(v) => Ok(v as u8),
            Err(e) => Err(e),
        }
    }

    /// Reads a 32-bit varuint, truncating the accumulated value to 32 bits.
    pub fn read_varuint32(&mut self) -> (r: Result<u32, ParseError>)
        requires
            old(self).wf(),
        ensures
            final(self).wf(),
            final(self).data == old(self).data,
            old(self).pos <= final(self).pos,
            match spec_varuint32(old(self).data@, old(self).pos as int) {
                Ok((v, p)) => r matches Ok(x) && x == v && final(self).pos == p,
                Err(e) => r matches Err(e2) && e2 == e,
            },
    {
        match self.read_varuint(32) {
            Ok(v) => Ok((v % 0x100000000) as u32),
            Err(e) => Err(e),
        }
    }

    /// Reads a signed LEB128 value of at most `max_bits` declared bits,
    /// returning the value and the number of bytes consumed. The byte
    /// group is the same as for the unsigned reading; a final byte with
    /// its 0x40 bit set sign-extends a group shorter than 64 bits.
    pub fn read_varint_len(&mut self, max_bits: u32) -> (r: Result<(i64, u64), ParseError>)
        requires
            old(self).wf(),
            1 <= max_bits <= 64,
        ensures
            final(self).wf(),
            final(self).data == old(self).data,
            old(self).pos <= final(self).pos,
            match spec_varint(old(self).data@, old(self).pos as int, max_bits) {
                Ok((v, p)) => r matches Ok(x) && x.0 == v && x.1 == p - old(self).pos
                    && final(self).pos == p,
                Err(e) => r matches Err(e2) && e2 == e,
            },
    {
        let ghost d = self.data@;
        let ghost start = self.pos as int;
        let (v, n) = match self.read_varuint_len(max_bits) {
            Ok(x) => x,
            Err(e) => {
                return Err(e);
            },
        };
        let ghost c = cont_len(d, start);
        let ghost group = d.subrange(start, start + c + 1);
        proof {
            assert(n == c + 1);
            lemma_cont_len_bytes(d, start);
            assert(group[c as int] == d[start + c]);
            assert(group[c as int] < 0x80);
            lemma_leb_bound(group);
        }
        let last = self.data[self.pos - 1];
        if n <= 9 && last >= 0x40 {
            // sign extension: the group is narrower than 64 bits and its
            // final byte carries the sign bit
            let mut p: u64 = 1;
            let mut i: u64 = 0;
            proof {
                lemma2_to64();
            }
            while i < n
                invariant
                    i <= n <= 9,
                    p == pow2((7 * i) as nat),
                decreases n - i,
            {
                proof {
                    lemma_pow2_adds((7 * i) as nat, 7);
                    lemma2_to64();
                    lemma2_to64_rest();
                    assert(pow2((7 * (i + 1)) as nat) <= pow2(63)) by {
                        if 7 * (i + 1) < 63 {
                            vstd::arithmetic::power2::lemma_pow2_strictly_increases(
                                (7 * (i + 1)) as nat,
                                63,
                            );
                        }
                    };
                }
                p = p * 0x80;
                i = i + 1;
            }
            proof {
                lemma2_to64_rest();
                assert(pow2((7 * n) as nat) <= pow2(63)) by {
                    if 7 * n < 63 {
                        vstd::arithmetic::power2::lemma_pow2_strictly_increases(
                            (7 * n) as nat,
                            63,
                        );
                    }
                };
                lemma_small_mod(leb_value(group), 0x10000000000000000);
                assert(v == leb_value(group));
                // the sign byte puts at least one bit in the value
                assert(group =~= group.subrange(0, c as int).push(group[c as int]));
                lemma_leb_snoc(group.subrange(0, c as int), group[c as int]);
                lemma_pow2_pos((7 * c) as nat);
                assert((group[c as int] % 0x80) * pow2((7 * c) as nat) >= 1) by (nonlinear_arith)
                    requires
                        group[c as int] % 0x80 >= 0x40,
                        pow2((7 * c) as nat) >= 1,
                ;
                assert(v >= 1);
            }
            let diff = p - v;
            Ok((-(diff as i64), n))
        } else {
            proof {
                lemma2_to64();
                lemma2_to64_rest();
                if n <= 9 {
                    // no sign bit: the value is exact and below 2^63
                    assert(pow2((7 * n) as nat) <= pow2(63)) by {
                        if 7 * n < 63 {
                            vstd::arithmetic::power2::lemma_pow2_strictly_increases(
                                (7 * n) as nat,
                                63,
                            );
                        }
                    };
                    lemma_small_mod(leb_value(group), 0x10000000000000000);
                } else {
                    // a full 10-byte group: the two's-complement reading of
                    // the low 64 bits
                    assert(v >= 0x8000000000000000 ==> v as i64 == v
                        - 0x10000000000000000) by (bit_vector);
                }
            }
            Ok((#[verifier::truncate] (v as i64), n))
        }
    }

    /// Reads a signed LEB128 value, dropping the byte count.
    pub fn read_varint(&mut self, max_bits: u32) -> (r: Result<i64, ParseError>)
        requires
            old(self).wf(),
            1 <= max_bits <= 64,
        ensures
            final(self).wf(),
            final(self).data == old(self).data,
            old(self).pos <= final(self).pos,
            match spec_varint(old(self).data@, old(self).pos as int, max_bits) {
                Ok((v, p)) => r matches Ok(x) && x == v && final(self).pos == p,
                Err(e) => r matches Err(e2) && e2 == e,
            },
    {
        match self.read_varint_len(max_bits) {
            Ok((v, _)) => Ok(v),
            Err(e) => Err(e),
        }
    }

    /// Reads a 32-bit signed varint, truncating the value to 32 bits.
    pub fn read_varint32(&mut self) -> (r: Result<i32, ParseError>)
        requires
            old(self).wf(),
        ensures
            final(self).wf(),
            final(self).data == old(self).data,
            old(self).pos <= final(self).pos,
            match spec_varint(old(self).data@, old(self).pos as int, 32) {
                Ok((v, p)) => r matches Ok(x) && x == v as i32 && final(self).pos == p,
                Err(e) => r matches Err(e2) && e2 == e,
            },
    {
        match self.read_varint(32) {
            Ok(v) => Ok(v as i32),
            Err(e) => Err(e),
        }
    }

    /// Reads a 64-bit signed varint.
    pub fn read_varint64(&mut self) -> (r: Result<i64, ParseError>)
        requires
            old(self).wf(),
        ensures
            final(self).wf(),
            final(self).data == old(self).data,
            old(self).pos <= final(self).pos,
            match spec_varint(old(self).data@, old(self).pos as int, 64) {
                Ok((v, p)) => r matches Ok(x) && x == v && final(self).pos == p,
                Err(e) => r matches Err(e2) && e2 == e,
            },
    {
        self.read_varint(64)
    }
}

/// The minimal unsigned LEB128 encoding of a value: low 7 bits per byte,
/// least significant first, the high bit set on every byte but the last.
pub open spec fn varuint_encode(v: nat) -> Seq<u8>
    decreases v,
    via varuint_encode_decreases
{
    if v < 0x80 {
        seq![v as u8]
    } else {
        seq![(0x80 + v % 0x80) as u8] + varuint_encode(v / 0x80)
    }
}

#[via_fn]
proof fn varuint_encode_decreases(v: nat) {
    if v >= 0x80 {
        vstd::arithmetic::div_mod::lemma_div_is_strictly_smaller(v as int, 0x80);
    }
}

/// Decoding an encoding gives the value back.
pub proof fn lemma_varuint_encode_value(v: nat)
    ensures
        leb_value(varuint_encode(v)) == v,
    decreases v,
{
    if v < 0x80 {
        let e = varuint_encode(v);
        assert(e.subrange(1, 1) =~= Seq::<u8>::empty());
        assert(e[0] == v as u8);
        assert(leb_value(e) == (e[0] % 0x80) as nat + 0x80 * leb_value(e.subrange(1, 1)));
        assert((e[0] % 0x80) as nat == v);
    } else {
        vstd::arithmetic::div_mod::lemma_div_is_strictly_smaller(v as int, 0x80);
        lemma_varuint_encode_value(v / 0x80);
        let e = varuint_encode(v);
        assert(e.subrange(1, e.len() as int) =~= varuint_encode(v / 0x80));
        assert(e[0] == (0x80 + v % 0x80) as u8);
        assert(e[0] % 0x80 == v % 0x80);
        assert(leb_value(e) == (e[0] % 0x80) as nat + 0x80 * leb_value(
            e.subrange(1, e.len() as int),
        ));
        assert(leb_value(e) == v % 0x80 + 0x80 * (v / 0x80));
        vstd::arithmetic::div_mod::lemma_fundamental_div_mod(v as int, 0x80);
    }
}

/// An encoding is never empty; every byte but the last is a continuation
/// byte, and the last is not.
pub proof fn lemma_varuint_encode_bytes(v: nat)
    ensures
        varuint_encode(v).len() >= 1,
        forall|j: int|
            0 <= j < varuint_encode(v).len() - 1 ==> #[trigger] varuint_encode(v)[j] >= 0x80,
        varuint_encode(v)[varuint_encode(v).len() - 1] < 0x80,
    decreases v,
{
    if v >= 0x80 {
        vstd::arithmetic::div_mod::lemma_div_is_strictly_smaller(v as int, 0x80);
        lemma_varuint_encode_bytes(v / 0x80);
        let e = varuint_encode(v);
        let rest = varuint_encode(v / 0x80);
        assert forall|j: int| 0 <= j < e.len() - 1 implies #[trigger] e[j] >= 0x80 by {
            if j > 0 {
                assert(e[j] == rest[j - 1]);
            }
        }
    }
}

/// A value below `2^(7n)` encodes in at most `n` bytes.
pub proof fn lemma_varuint_encode_len_le(v: nat, n: nat)
    requires
        n >= 1,
        v < pow2((7 * n) as nat),
    ensures
        varuint_encode(v).len() <= n,
    decreases n,
{
    if v >= 0x80 {
        vstd::arithmetic::div_mod::lemma_div_is_strictly_smaller(v as int, 0x80);
        lemma_pow2_adds((7 * (n - 1)) as nat, 7);
        lemma2_to64();
        assert(n >= 2) by {
            if n == 1 {
                assert(pow2(7) == 0x80);
            }
        };
        assert(v / 0x80 < pow2((7 * (n - 1)) as nat)) by (nonlinear_arith)
            requires
                v < pow2((7 * (n - 1)) as nat) * 0x80,
        ;
        lemma_varuint_encode_len_le(v / 0x80, (n - 1) as nat);
    }
}

/// A value of `2^(7n)` or above needs more than `n` bytes.
pub proof fn lemma_varuint_encode_len_gt(v: nat, n: nat)
    requires
        v >= pow2((7 * n) as nat),
    ensures
        varuint_encode(v).len() > n,
    decreases n,
{
    if n > 0 {
        lemma_pow2_adds((7 * (n - 1)) as nat, 7);
        lemma2_to64();
        lemma_pow2_pos((7 * (n - 1)) as nat);
        assert(v >= 0x80) by (nonlinear_arith)
            requires
                v >= pow2((7 * (n - 1)) as nat) * 0x80,
                pow2((7 * (n - 1)) as nat) >= 1,
        ;
        vstd::arithmetic::div_mod::lemma_div_is_strictly_smaller(v as int, 0x80);
        assert(v / 0x80 >= pow2((7 * (n - 1)) as nat)) by {
            vstd::arithmetic::div_mod::lemma_div_by_multiple(
                pow2((7 * (n - 1)) as nat) as int,
                0x80,
            );
            vstd::arithmetic::div_mod::lemma_div_is_ordered(
                (pow2((7 * (n - 1)) as nat) * 0x80) as int,
                v as int,
                0x80,
            );
        };
        lemma_varuint_encode_len_gt(v / 0x80, (n - 1) as nat);
    }
}

/// A run of `k` continuation bytes at `pos` makes `cont_len` at least `k`.
pub proof fn lemma_cont_len_at_least(d: Seq<u8>, pos: int, k: nat)
    requires
        0 <= pos,
        pos + k <= d.len(),
        forall|j: int| 0 <= j < k ==> #[trigger] d[pos + j] >= 0x80,
    ensures
        cont_len(d, pos) >= k,
    decreases k,
{
    if k > 0 {
        assert(d[pos + 0] >= 0x80);
        assert forall|j: int| 0 <= j < k - 1 implies #[trigger] d[(pos + 1) + j] >= 0x80 by {
            assert(d[pos + (j + 1)] >= 0x80);
        }
        lemma_cont_len_at_least(d, pos + 1, (k - 1) as nat);
    }
}

/// A run of exactly `k` continuation bytes followed by a terminator makes
/// `cont_len` exactly `k`.
pub proof fn lemma_cont_len_exact(d: Seq<u8>, pos: int, k: nat)
    requires
        0 <= pos,
        pos + k < d.len(),
        forall|j: int| 0 <= j < k ==> #[trigger] d[pos + j] >= 0x80,
        d[pos + k] < 0x80,
    ensures
        cont_len(d, pos) == k,
    decreases k,
{
    if k == 0 {
    } else {
        assert(d[pos + 0] >= 0x80);
        assert forall|j: int| 0 <= j < k - 1 implies #[trigger] d[(pos + 1) + j] >= 0x80 by {
            assert(d[pos + (j + 1)] >= 0x80);
        }
        lemma_cont_len_exact(d, pos + 1, (k - 1) as nat);
    }
}

/// Round trip: where the data holds the minimal encoding of a value that
/// fits the declared bit width, decoding succeeds, returns that value, and
/// consumes exactly the encoding.
pub proof fn lemma_varuint_round_trip(d: Seq<u8>, pos: int, v: u64, max_bits: u32)
    requires
        1 <= max_bits <= 64,
        v < pow2(max_bits as nat),
        0 <= pos,
        pos + varuint_encode(v as nat).len() <= d.len(),
        d.subrange(pos, pos + varuint_encode(v as nat).len()) == varuint_encode(v as nat),
    ensures
        spec_varuint(d, pos, max_bits) == Ok::<(u64, int), ParseError>(
            (v, pos + varuint_encode(v as nat).len()),
        ),
{
    let e = varuint_encode(v as nat);
    let len = e.len() as int;
    let maxb = max_leb_bytes(max_bits);
    lemma_varuint_encode_bytes(v as nat);
    lemma_varuint_encode_value(v as nat);
    // the declared width admits the encoding's length
    vstd::arithmetic::div_mod::lemma_fundamental_div_mod(max_bits + 6, 7);
    assert(7 * maxb >= max_bits);
    assert(pow2(max_bits as nat) <= pow2((7 * maxb) as nat)) by {
        if max_bits < 7 * maxb {
            vstd::arithmetic::power2::lemma_pow2_strictly_increases(
                max_bits as nat,
                (7 * maxb) as nat,
            );
        }
    };
    lemma_varuint_encode_len_le(v as nat, maxb);
    // the bytes at pos are the encoding's bytes
    assert(forall|j: int| 0 <= j < len ==> #[trigger] d[pos + j] == e[j]);
    lemma_cont_len_exact(d, pos, (len - 1) as nat);
    assert(d.subrange(pos, pos + len) == e);
    lemma_small_mod(v as nat, 0x10000000000000000);
}

/// Where the data holds the minimal encoding of a value too wide for the
/// declared bit width (its encoding is longer than the width's byte
/// budget), decoding fails with `VarintTooLong`.
pub proof fn lemma_varuint_too_long(d: Seq<u8>, pos: int, v: u64, max_bits: u32)
    requires
        1 <= max_bits <= 64,
        varuint_encode(v as nat).len() > max_leb_bytes(max_bits),
        0 <= pos,
        pos + varuint_encode(v as nat).len() <= d.len(),
        d.subrange(pos, pos + varuint_encode(v as nat).len()) == varuint_encode(v as nat),
    ensures
        spec_varuint(d, pos, max_bits) == Err::<(u64, int), ParseError>(ParseError::VarintTooLong),
{
    let e = varuint_encode(v as nat);
    let len = e.len() as int;
    let maxb = max_leb_bytes(max_bits);
    lemma_varuint_encode_bytes(v as nat);
    assert(forall|j: int| 0 <= j < len ==> #[trigger] d[pos + j] == e[j]);
    assert(forall|j: int| 0 <= j < maxb ==> #[trigger] d[pos + j] >= 0x80);
    lemma_cont_len_at_least(d, pos, maxb);
}

/// The minimal signed LEB128 encoding of a value: low 7 bits per byte,
/// least significant first; encoding stops once every remaining bit is a
/// copy of the sign bit.
pub open spec fn varint_encode(v: int) -> Seq<u8>
    decreases (if v < 0 {
        -v
    } else {
        v
    }),
    via varint_encode_decreases
{
    if -0x40 <= v < 0x40 {
        seq![(v % 0x80) as u8]
    } else {
        seq![(0x80 + v % 0x80) as u8] + varint_encode(v / 0x80)
    }
}

#[via_fn]
proof fn varint_encode_decreases(v: int) {
    if !(-0x40 <= v < 0x40) {
        vstd::arithmetic::div_mod::lemma_fundamental_div_mod(v, 0x80);
    }
}

/// Decoding a signed encoding gives the value back, shifted up by one
/// whole bit-width for negative values (their byte groups read unsigned).
pub proof fn lemma_varint_encode_value(v: int)
    ensures
        v >= 0 ==> leb_value(varint_encode(v)) == v,
        v < 0 ==> leb_value(varint_encode(v)) == v + pow2((7 * varint_encode(v).len()) as nat),
    decreases (if v < 0 {
        -v
    } else {
        v
    }),
{
    lemma2_to64();
    if -0x40 <= v < 0x40 {
        let e = varint_encode(v);
        assert(e.subrange(1, 1) =~= Seq::<u8>::empty());
        assert(e[0] == (v % 0x80) as u8);
        assert(leb_value(e) == (e[0] % 0x80) as nat + 0x80 * leb_value(e.subrange(1, 1)));
    } else {
        vstd::arithmetic::div_mod::lemma_fundamental_div_mod(v, 0x80);
        let q = v / 0x80;
        let r = v % 0x80;
        lemma_varint_encode_value(q);
        let e = varint_encode(v);
        let rest = varint_encode(q);
        assert(e.subrange(1, e.len() as int) =~= rest);
        assert(e[0] == (0x80 + r) as u8);
        assert(e[0] % 0x80 == r);
        assert(leb_value(e) == (e[0] % 0x80) as nat + 0x80 * leb_value(rest));
        if v >= 0x40 {
            assert(q >= 0);
            assert(leb_value(e) == r + 0x80 * q);
        } else {
            assert(q < 0);
            let pl = pow2((7 * rest.len()) as nat);
            assert(leb_value(rest) == q + pl);
            assert(0x80 * ((q + pl) as int) == 0x80 * q + 0x80 * pl) by (nonlinear_arith);
            lemma_pow2_adds((7 * rest.len()) as nat, 7);
            assert(pow2((7 * e.len()) as nat) == pl * 0x80);
        }
    }
}

/// A signed encoding is never empty; every byte but the last is a
/// continuation byte, the last is not, and the last carries the sign bit
/// exactly for negative values.
pub proof fn lemma_varint_encode_bytes(v: int)
    ensures
        varint_encode(v).len() >= 1,
        forall|j: int|
            0 <= j < varint_encode(v).len() - 1 ==> #[trigger] varint_encode(v)[j] >= 0x80,
        varint_encode(v)[varint_encode(v).len() - 1] < 0x80,
        (varint_encode(v)[varint_encode(v).len() - 1] >= 0x40) <==> v < 0,
    decreases (if v < 0 {
        -v
    } else {
        v
    }),
{
    if -0x40 <= v < 0x40 {
    } else {
        vstd::arithmetic::div_mod::lemma_fundamental_div_mod(v, 0x80);
        let q = v / 0x80;
        lemma_varint_encode_bytes(q);
        let e = varint_encode(v);
        let rest = varint_encode(q);
        assert forall|j: int| 0 <= j < e.len() - 1 implies #[trigger] e[j] >= 0x80 by {
            if j > 0 {
                assert(e[j] == rest[j - 1]);
            }
        }
        assert(e[e.len() - 1] == rest[rest.len() - 1]);
    }
}

/// A signed encoding of a value in the two's-complement range of `n`
/// 7-bit groups takes at most `n` bytes.
pub proof fn lemma_varint_encode_len_le(v: int, n: nat)
    requires
        n >= 1,
        -pow2((7 * n - 1) as nat) <= v < pow2((7 * n - 1) as nat),
    ensures
        varint_encode(v).len() <= n,
    decreases n,
{
    lemma2_to64();
    if -0x40 <= v < 0x40 {
    } else {
        vstd::arithmetic::div_mod::lemma_fundamental_div_mod(v, 0x80);
        let q = v / 0x80;
        assert(n >= 2) by {
            if n == 1 {
                assert(pow2(6) == 0x40);
            }
        };
        lemma_pow2_adds((7 * n - 8) as nat, 7);
        assert(-pow2((7 * (n - 1) - 1) as nat) <= q < pow2((7 * (n - 1) - 1) as nat)) by (
        nonlinear_arith)
            requires
                v == 0x80 * q + v % 0x80,
                0 <= v % 0x80 < 0x80,
                -(pow2((7 * n - 8) as nat) * 0x80) <= v < pow2((7 * n - 8) as nat) * 0x80,
                pow2((7 * (n - 1) - 1) as nat) == pow2((7 * n - 8) as nat),
        ;
        lemma_varint_encode_len_le(q, (n - 1) as nat);
    }
}

/// Signed round trip: where the data holds the minimal signed encoding of
/// a value and the encoding fits the declared bit width's byte budget,
/// decoding succeeds, returns that value, and consumes exactly the
/// encoding.
#[verifier::rlimit(50)]
pub proof fn lemma_varint_round_trip(d: Seq<u8>, pos: int, v: i64, max_bits: u32)
    requires
        1 <= max_bits <= 64,
        varint_encode(v as int).len() <= max_leb_bytes(max_bits),
        0 <= pos,
        pos + varint_encode(v as int).len() <= d.len(),
        d.subrange(pos, pos + varint_encode(v as int).len()) == varint_encode(v as int),
    ensures
        spec_varint(d, pos, max_bits) == Ok::<(i64, int), ParseError>(
            (v, pos + varint_encode(v as int).len()),
        ),
{
    let e = varint_encode(v as int);
    let n = e.len();
    let len = n as int;
    lemma_varint_encode_bytes(v as int);
    lemma_varint_encode_value(v as int);
    lemma_leb_bound(e);
    assert(forall|j: int| 0 <= j < len ==> #[trigger] d[pos + j] == e[j]);
    lemma_cont_len_exact(d, pos, (len - 1) as nat);
    assert(d.subrange(pos, pos + len) == e);
    lemma2_to64();
    lemma2_to64_rest();
    if 7 * n < 64 {
        assert(pow2((7 * n) as nat) <= pow2(63)) by {
            if 7 * n < 63 {
                vstd::arithmetic::power2::lemma_pow2_strictly_increases((7 * n) as nat, 63);
            }
        };
        if v < 0 {
            // the sign bit is set, so decoding sign-extends: the group
            // reads as v plus one whole bit-width, which the extension
            // takes away again
            assert(e[len - 1] % 0x80 >= 0x40);
            assert(sleb_value(e) == leb_value(e) - pow2((7 * n) as nat));
        } else {
            assert(e[len - 1] % 0x80 < 0x40);
            lemma_small_mod(leb_value(e), 0x10000000000000000);
        }
    } else {
        // a full ten-byte group: the two's-complement reading of the low
        // 64 bits is the value itself
        assert(n == 10) by {
            assert(max_leb_bytes(max_bits) <= 10);
        };
        assert(pow2(70) == 0x40 * 0x10000000000000000) by {
            lemma_pow2_adds(64, 6);
        };
        if v < 0 {
            assert(leb_value(e) == v + 0x40 * 0x10000000000000000);
            lemma_mod_multiples_vanish(
                0x3f,
                v + 0x10000000000000000,
                0x10000000000000000,
            );
            lemma_small_mod((v + 0x10000000000000000) as nat, 0x10000000000000000);
            assert(leb_value(e) % 0x10000000000000000 == v + 0x10000000000000000);
        } else {
            assert(leb_value(e) == v);
            lemma_small_mod(leb_value(e), 0x10000000000000000);
        }
    }
}

/// Encodes a value as a minimal unsigned LEB128 byte sequence.
pub fn encode_varuint(v: u64) -> (r: Vec<u8>)
    ensures
        r@ == varuint_encode(v as nat),
{
    let mut out: Vec<u8> = Vec::new();
    let mut x: u64 = v;
    proof {
        assert(out@ + varuint_encode(x as nat) =~= varuint_encode(v as nat));
    }
    loop
        invariant
            out@ + varuint_encode(x as nat) == varuint_encode(v as nat),
        decreases x,
    {
        if x < 0x80 {
            out.push(x as u8);
            proof {
                assert(varuint_encode(x as nat) =~= seq![x as u8]);
                assert(out@ =~= varuint_encode(v as nat));
            }
            return out;
        }
        let b: u8 = 0x80 + (x % 0x80) as u8;
        out.push(b);
        proof {
            assert(seq![b] + varuint_encode((x as nat) / 0x80) =~= varuint_encode(x as nat));
            assert(out@ + varuint_encode((x as nat) / 0x80) =~= varuint_encode(v as nat));
            vstd::arithmetic::div_mod::lemma_div_is_strictly_smaller(x as int, 0x80);
            assert((x as nat) / 0x80 == (x / 0x80) as nat);
        }
        x = x / 0x80;
    }
}

/// Within a run of continuation bytes every byte is 0x80 or above, and the
/// byte that ends the run, if the data holds one, is below 0x80.
pub proof fn lemma_cont_len_bytes(d: Seq<u8>, pos: int)
    ensures
        forall|k: int| 0 <= k < cont_len(d, pos) ==> #[trigger] d[pos + k] >= 0x80,
        pos >= 0 && pos + cont_len(d, pos) < d.len() ==> d[pos + cont_len(d, pos)] < 0x80,
    decreases d.len() - pos,
{
    if 0 <= pos < d.len() && d[pos] >= 0x80 {
        lemma_cont_len_bytes(d, pos + 1);
        assert forall|k: int| 0 <= k < cont_len(d, pos) implies #[trigger] d[pos + k] >= 0x80 by {
            if k > 0 {
                assert(d[(pos + 1) + (k - 1)] >= 0x80);
            }
        }
    }
}

} // verus!
