//! The capability for the four native widths: `u8`, `u16`, `u32` and `u64`.
//!
//! Each width takes the operators of the integer itself for the methods and
//! proves the laws by bit-blasting.
use crate::register::{bit_mask, One, RegisterType, Zero};
use vstd::prelude::*;

verus! {

impl Zero for u8 {
    open spec fn spec_zero() -> u8 {
        0
    }

    fn zero() -> u8 {
        0
    }
}

impl One for u8 {
    open spec fn spec_one() -> u8 {
        1
    }

    fn one() -> u8 {
        1
    }
}

impl RegisterType<u8> for u8 {
    open spec fn spec_bit_not(self) -> u8 {
        !self
    }

    open spec fn spec_bit_and(self, rhs: u8) -> u8 {
        self & rhs
    }

    open spec fn spec_bit_or(self, rhs: u8) -> u8 {
        self | rhs
    }

    open spec fn spec_shift_left(self, by: u8) -> u8 {
        self << by
    }

    open spec fn spec_shift_right(self, by: u8) -> u8 {
        self >> by
    }

    fn bit_not(self) -> u8 {
        !self
    }

    fn bit_and(self, rhs: u8) -> u8 {
        self & rhs
    }

    fn bit_or(self, rhs: u8) -> u8 {
        self | rhs
    }

    fn bit_and_assign(&mut self, rhs: u8) {
        *self &= rhs;
    }

    fn bit_or_assign(&mut self, rhs: u8) {
        *self |= rhs;
    }

    fn shift_left(self, by: u8) -> u8 {
        if by < 8 {
            self << by
        } else {
            assert(self << by == 0) by (bit_vector)
                requires
                    by >= 8,
            ;
            0
        }
    }

    fn shift_right(self, by: u8) -> u8 {
        if by < 8 {
            self >> by
        } else {
            assert(self >> by == 0) by (bit_vector)
                requires
                    by >= 8,
            ;
            0
        }
    }

    fn same(self, rhs: u8) -> bool {
        self == rhs
    }

    proof fn law_bit_write(val: u8, i: u8, j: u8) {
        let bit = 1u8 << i;
        let other = 1u8 << j;
        assert({
            &&& (val | bit) & bit != 0 <==> bit != 0
            &&& (val & !bit) & bit == 0
            &&& (val | bit) & !bit == val & !bit
            &&& (val & !bit) & !bit == val & !bit
            &&& i != j ==> bit & other == 0
        }) by (bit_vector)
            requires
                bit == 1u8 << i,
                other == 1u8 << j,
        ;
    }

    proof fn law_field_write(raw: u8, shift: u8, mask: u8, val: u8) {
        let place = mask << shift;
        let field = (val & mask) << shift;
        assert({
            &&& ((raw & !place) | field) & !place == raw & !place
            &&& ((raw & !place) | field) & place == field
        }) by (bit_vector)
            requires
                place == mask << shift,
                field == (val & mask) << shift,
        ;
    }

    proof fn law_field_read_back(raw: u8, shift: u8, mask: u8, val: u8) {
        let place = mask << shift;
        let field = (val & mask) << shift;
        assert({
            &&& (((raw & !place) | field) >> shift) & mask == field >> shift
            &&& (mask << shift) >> shift == mask ==> field >> shift == val & mask
        }) by (bit_vector)
            requires
                place == mask << shift,
                field == (val & mask) << shift,
        ;
    }

    proof fn law_apart(a: u8, b: u8, p: u8, q: u8) {
        assert(a & q == b & q) by (bit_vector)
            requires
                a & !p == b & !p,
                p & q == 0,
        ;
    }

    proof fn law_read_is_local(a: u8, b: u8, shift: u8, mask: u8) {
        assert((a >> shift) & mask == (b >> shift) & mask) by (bit_vector)
            requires
                a & (mask << shift) == b & (mask << shift),
        ;
    }
}

/// A `u8` has the bits 0 to 7 and no other.
pub proof fn lemma_bits_of_u8(i: u8)
    ensures
        bit_mask::<u8>(i) != 0 <==> i < 8,
{
    assert(1u8 << i != 0 <==> i < 8) by (bit_vector);
}

impl Zero for u16 {
    open spec fn spec_zero() -> u16 {
        0
    }

    fn zero() -> u16 {
        0
    }
}

impl One for u16 {
    open spec fn spec_one() -> u16 {
        1
    }

    fn one() -> u16 {
        1
    }
}

impl RegisterType<u16> for u16 {
    open spec fn spec_bit_not(self) -> u16 {
        !self
    }

    open spec fn spec_bit_and(self, rhs: u16) -> u16 {
        self & rhs
    }

    open spec fn spec_bit_or(self, rhs: u16) -> u16 {
        self | rhs
    }

    open spec fn spec_shift_left(self, by: u16) -> u16 {
        self << by
    }

    open spec fn spec_shift_right(self, by: u16) -> u16 {
        self >> by
    }

    fn bit_not(self) -> u16 {
        !self
    }

    fn bit_and(self, rhs: u16) -> u16 {
        self & rhs
    }

    fn bit_or(self, rhs: u16) -> u16 {
        self | rhs
    }

    fn bit_and_assign(&mut self, rhs: u16) {
        *self &= rhs;
    }

    fn bit_or_assign(&mut self, rhs: u16) {
        *self |= rhs;
    }

    fn shift_left(self, by: u16) -> u16 {
        if by < 16 {
            self << by
        } else {
            assert(self << by == 0) by (bit_vector)
                requires
                    by >= 16,
            ;
            0
        }
    }

    fn shift_right(self, by: u16) -> u16 {
        if by < 16 {
            self >> by
        } else {
            assert(self >> by == 0) by (bit_vector)
                requires
                    by >= 16,
            ;
            0
        }
    }

    fn same(self, rhs: u16) -> bool {
        self == rhs
    }

    proof fn law_bit_write(val: u16, i: u16, j: u16) {
        let bit = 1u16 << i;
        let other = 1u16 << j;
        assert({
            &&& (val | bit) & bit != 0 <==> bit != 0
            &&& (val & !bit) & bit == 0
            &&& (val | bit) & !bit == val & !bit
            &&& (val & !bit) & !bit == val & !bit
            &&& i != j ==> bit & other == 0
        }) by (bit_vector)
            requires
                bit == 1u16 << i,
                other == 1u16 << j,
        ;
    }

    proof fn law_field_write(raw: u16, shift: u16, mask: u16, val: u16) {
        let place = mask << shift;
        let field = (val & mask) << shift;
        assert({
            &&& ((raw & !place) | field) & !place == raw & !place
            &&& ((raw & !place) | field) & place == field
        }) by (bit_vector)
            requires
                place == mask << shift,
                field == (val & mask) << shift,
        ;
    }

    proof fn law_field_read_back(raw: u16, shift: u16, mask: u16, val: u16) {
        let place = mask << shift;
        let field = (val & mask) << shift;
        assert({
            &&& (((raw & !place) | field) >> shift) & mask == field >> shift
            &&& (mask << shift) >> shift == mask ==> field >> shift == val & mask
        }) by (bit_vector)
            requires
                place == mask << shift,
                field == (val & mask) << shift,
        ;
    }

    proof fn law_apart(a: u16, b: u16, p: u16, q: u16) {
        assert(a & q == b & q) by (bit_vector)
            requires
                a & !p == b & !p,
                p & q == 0,
        ;
    }

    proof fn law_read_is_local(a: u16, b: u16, shift: u16, mask: u16) {
        assert((a >> shift) & mask == (b >> shift) & mask) by (bit_vector)
            requires
                a & (mask << shift) == b & (mask << shift),
        ;
    }
}

/// A `u16` has the bits 0 to 15 and no other.
pub proof fn lemma_bits_of_u16(i: u16)
    ensures
        bit_mask::<u16>(i) != 0 <==> i < 16,
{
    assert(1u16 << i != 0 <==> i < 16) by (bit_vector);
}

impl Zero for u32 {
    open spec fn spec_zero() -> u32 {
        0
    }

    fn zero() -> u32 {
        0
    }
}

impl One for u32 {
    open spec fn spec_one() -> u32 {
        1
    }

    fn one() -> u32 {
        1
    }
}

impl RegisterType<u32> for u32 {
    open spec fn spec_bit_not(self) -> u32 {
        !self
    }

    open spec fn spec_bit_and(self, rhs: u32) -> u32 {
        self & rhs
    }

    open spec fn spec_bit_or(self, rhs: u32) -> u32 {
        self | rhs
    }

    open spec fn spec_shift_left(self, by: u32) -> u32 {
        self << by
    }

    open spec fn spec_shift_right(self, by: u32) -> u32 {
        self >> by
    }

    fn bit_not(self) -> u32 {
        !self
    }

    fn bit_and(self, rhs: u32) -> u32 {
        self & rhs
    }

    fn bit_or(self, rhs: u32) -> u32 {
        self | rhs
    }

    fn bit_and_assign(&mut self, rhs: u32) {
        *self &= rhs;
    }

    fn bit_or_assign(&mut self, rhs: u32) {
        *self |= rhs;
    }

    fn shift_left(self, by: u32) -> u32 {
        if by < 32 {
            self << by
        } else {
            assert(self << by == 0) by (bit_vector)
                requires
                    by >= 32,
            ;
            0
        }
    }

    fn shift_right(self, by: u32) -> u32 {
        if by < 32 {
            self >> by
        } else {
            assert(self >> by == 0) by (bit_vector)
                requires
                    by >= 32,
            ;
            0
        }
    }

    fn same(self, rhs: u32) -> bool {
        self == rhs
    }

    proof fn law_bit_write(val: u32, i: u32, j: u32) {
        let bit = 1u32 << i;
        let other = 1u32 << j;
        assert({
            &&& (val | bit) & bit != 0 <==> bit != 0
            &&& (val & !bit) & bit == 0
            &&& (val | bit) & !bit == val & !bit
            &&& (val & !bit) & !bit == val & !bit
            &&& i != j ==> bit & other == 0
        }) by (bit_vector)
            requires
                bit == 1u32 << i,
                other == 1u32 << j,
        ;
    }

    proof fn law_field_write(raw: u32, shift: u32, mask: u32, val: u32) {
        let place = mask << shift;
        let field = (val & mask) << shift;
        assert({
            &&& ((raw & !place) | field) & !place == raw & !place
            &&& ((raw & !place) | field) & place == field
        }) by (bit_vector)
            requires
                place == mask << shift,
                field == (val & mask) << shift,
        ;
    }

    proof fn law_field_read_back(raw: u32, shift: u32, mask: u32, val: u32) {
        let place = mask << shift;
        let field = (val & mask) << shift;
        assert({
            &&& (((raw & !place) | field) >> shift) & mask == field >> shift
            &&& (mask << shift) >> shift == mask ==> field >> shift == val & mask
        }) by (bit_vector)
            requires
                place == mask << shift,
                field == (val & mask) << shift,
        ;
    }

    proof fn law_apart(a: u32, b: u32, p: u32, q: u32) {
        assert(a & q == b & q) by (bit_vector)
            requires
                a & !p == b & !p,
                p & q == 0,
        ;
    }

    proof fn law_read_is_local(a: u32, b: u32, shift: u32, mask: u32) {
        assert((a >> shift) & mask == (b >> shift) & mask) by (bit_vector)
            requires
                a & (mask << shift) == b & (mask << shift),
        ;
    }
}

/// A `u32` has the bits 0 to 31 and no other.
pub proof fn lemma_bits_of_u32(i: u32)
    ensures
        bit_mask::<u32>(i) != 0 <==> i < 32,
{
    assert(1u32 << i != 0 <==> i < 32) by (bit_vector);
}

impl Zero for u64 {
    open spec fn spec_zero() -> u64 {
        0
    }

    fn zero() -> u64 {
        0
    }
}

impl One for u64 {
    open spec fn spec_one() -> u64 {
        1
    }

    fn one() -> u64 {
        1
    }
}

impl RegisterType<u64> for u64 {
    open spec fn spec_bit_not(self) -> u64 {
        !self
    }

    open spec fn spec_bit_and(self, rhs: u64) -> u64 {
        self & rhs
    }

    open spec fn spec_bit_or(self, rhs: u64) -> u64 {
        self | rhs
    }

    open spec fn spec_shift_left(self, by: u64) -> u64 {
        self << by
    }

    open spec fn spec_shift_right(self, by: u64) -> u64 {
        self >> by
    }

    fn bit_not(self) -> u64 {
        !self
    }

    fn bit_and(self, rhs: u64) -> u64 {
        self & rhs
    }

    fn bit_or(self, rhs: u64) -> u64 {
        self | rhs
    }

    fn bit_and_assign(&mut self, rhs: u64) {
        *self &= rhs;
    }

    fn bit_or_assign(&mut self, rhs: u64) {
        *self |= rhs;
    }

    fn shift_left(self, by: u64) -> u64 {
        if by < 64 {
            self << by
        } else {
            assert(self << by == 0) by (bit_vector)
                requires
                    by >= 64,
            ;
            0
        }
    }

    fn shift_right(self, by: u64) -> u64 {
        if by < 64 {
            self >> by
        } else {
            assert(self >> by == 0) by (bit_vector)
                requires
                    by >= 64,
            ;
            0
        }
    }

    fn same(self, rhs: u64) -> bool {
        self == rhs
    }

    proof fn law_bit_write(val: u64, i: u64, j: u64) {
        let bit = 1u64 << i;
        let other = 1u64 << j;
        assert({
            &&& (val | bit) & bit != 0 <==> bit != 0
            &&& (val & !bit) & bit == 0
            &&& (val | bit) & !bit == val & !bit
            &&& (val & !bit) & !bit == val & !bit
            &&& i != j ==> bit & other == 0
        }) by (bit_vector)
            requires
                bit == 1u64 << i,
                other == 1u64 << j,
        ;
    }

    proof fn law_field_write(raw: u64, shift: u64, mask: u64, val: u64) {
        let place = mask << shift;
        let field = (val & mask) << shift;
        assert({
            &&& ((raw & !place) | field) & !place == raw & !place
            &&& ((raw & !place) | field) & place == field
        }) by (bit_vector)
            requires
                place == mask << shift,
                field == (val & mask) << shift,
        ;
    }

    proof fn law_field_read_back(raw: u64, shift: u64, mask: u64, val: u64) {
        let place = mask << shift;
        let field = (val & mask) << shift;
        assert({
            &&& (((raw & !place) | field) >> shift) & mask == field >> shift
            &&& (mask << shift) >> shift == mask ==> field >> shift == val & mask
        }) by (bit_vector)
            requires
                place == mask << shift,
                field == (val & mask) << shift,
        ;
    }

    proof fn law_apart(a: u64, b: u64, p: u64, q: u64) {
        assert(a & q == b & q) by (bit_vector)
            requires
                a & !p == b & !p,
                p & q == 0,
        ;
    }

    proof fn law_read_is_local(a: u64, b: u64, shift: u64, mask: u64) {
        assert((a >> shift) & mask == (b >> shift) & mask) by (bit_vector)
            requires
                a & (mask << shift) == b & (mask << shift),
        ;
    }
}

/// A `u64` has the bits 0 to 63 and no other.
pub proof fn lemma_bits_of_u64(i: u64)
    ensures
        bit_mask::<u64>(i) != 0 <==> i < 64,
{
    assert(1u64 << i != 0 <==> i < 64) by (bit_vector);
}

} // verus!
