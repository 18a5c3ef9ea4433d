//! The register container, the integer capability it is generic over, and the
//! laws that its bit accessors and its builder chain obey.
use crate::helpers::{read_masked, spec_read_masked, spec_write_masked, write_masked};
use core::ops::{Add, BitAnd, BitOr, Not, Shl, Shr, Sub};
use vstd::prelude::*;

verus! {

/// A type with a zero value.
pub trait Zero: Sized {
    /// The value that `zero` returns.
    spec fn spec_zero() -> Self;

    #[verifier::when_used_as_spec(spec_zero)]
    fn zero() -> (z: Self)
        ensures
            z == Self::spec_zero(),
    ;
}

/// A type with a one value.
pub trait One: Sized {
    /// The value that `one` returns.
    spec fn spec_one() -> Self;

    #[verifier::when_used_as_spec(spec_one)]
    fn one() -> (o: Self)
        ensures
            o == Self::spec_one(),
    ;
}

/// An unsigned integer of fixed width that can back a register.
///
/// The operators of the type stay available to callers. The register itself
/// goes through the methods below, which are total: a shift by the width or
/// more moves every bit out and leaves zero, where the operator would
/// overflow. The laws at the end are what the register's own laws rest on;
/// each width proves them once.
pub trait RegisterType<T>: Zero
    + One
    + Not<Output = T>
    + Add<T, Output = T>
    + Sub<T, Output = T>
    + BitAnd<T, Output = T>
    + BitOr<T, Output = T>
    + Shl<T, Output = T>
    + Shr<T, Output = T>
    + Clone
    + Copy
    + Default
    + PartialEq
{
    /// Every bit of the width inverted.
    spec fn spec_bit_not(self) -> Self;

    /// The bits set in both.
    spec fn spec_bit_and(self, rhs: Self) -> Self;

    /// The bits set in either.
    spec fn spec_bit_or(self, rhs: Self) -> Self;

    /// The bits moved up by `by` places; those that leave the width are lost.
    spec fn spec_shift_left(self, by: Self) -> Self;

    /// The bits moved down by `by` places; those that pass bit 0 are lost.
    spec fn spec_shift_right(self, by: Self) -> Self;

    #[verifier::when_used_as_spec(spec_bit_not)]
    fn bit_not(self) -> (r: Self)
        ensures
            r == self.spec_bit_not(),
    ;

    #[verifier::when_used_as_spec(spec_bit_and)]
    fn bit_and(self, rhs: Self) -> (r: Self)
        ensures
            r == self.spec_bit_and(rhs),
    ;

    #[verifier::when_used_as_spec(spec_bit_or)]
    fn bit_or(self, rhs: Self) -> (r: Self)
        ensures
            r == self.spec_bit_or(rhs),
    ;

    /// `bit_and` in place.
    fn bit_and_assign(&mut self, rhs: Self)
        ensures
            *final(self) == old(self).spec_bit_and(rhs),
    ;

    /// `bit_or` in place.
    fn bit_or_assign(&mut self, rhs: Self)
        ensures
            *final(self) == old(self).spec_bit_or(rhs),
    ;

    #[verifier::when_used_as_spec(spec_shift_left)]
    fn shift_left(self, by: Self) -> (r: Self)
        ensures
            r == self.spec_shift_left(by),
    ;

    #[verifier::when_used_as_spec(spec_shift_right)]
    fn shift_right(self, by: Self) -> (r: Self)
        ensures
            r == self.spec_shift_right(by),
    ;

    /// Whether the two values are the same.
    fn same(self, rhs: Self) -> (b: bool)
        ensures
            b == (self == rhs),
    ;

    /// Setting bit `i` makes it read as set exactly where the width has a
    /// bit `i`; clearing it makes it read as clear. Either way all other
    /// bits stay, and bits of different index share nothing.
    proof fn law_bit_write(val: Self, i: Self, j: Self)
        ensures
            ({
                let bit = Self::one().shift_left(i);
                let set = val.bit_or(bit);
                let cleared = val.bit_and(bit.bit_not());
                &&& set.bit_and(bit) != Self::zero() <==> bit != Self::zero()
                &&& cleared.bit_and(bit) == Self::zero()
                &&& set.bit_and(bit.bit_not()) == val.bit_and(bit.bit_not())
                &&& cleared.bit_and(bit.bit_not()) == val.bit_and(bit.bit_not())
                &&& i != j ==> bit.bit_and(Self::one().shift_left(j)) == Self::zero()
            }),
    ;

    /// Writing `val` through `mask` at `shift` leaves every bit outside the
    /// shifted mask as it was and puts the masked value under the shifted
    /// mask.
    proof fn law_field_write(raw: Self, shift: Self, mask: Self, val: Self)
        ensures
            ({
                let place = mask.shift_left(shift);
                let field = val.bit_and(mask).shift_left(shift);
                let written = raw.bit_and(place.bit_not()).bit_or(field);
                &&& written.bit_and(place.bit_not()) == raw.bit_and(place.bit_not())
                &&& written.bit_and(place) == field
            }),
    ;

    /// Reading a field back after a write gives the masked value as far as
    /// it survived the shift up and down again, whatever the register held.
    /// Where the mask itself survives that shift, so does every value under
    /// it.
    proof fn law_field_read_back(raw: Self, shift: Self, mask: Self, val: Self)
        ensures
            ({
                let field = val.bit_and(mask).shift_left(shift);
                let written = raw.bit_and(mask.shift_left(shift).bit_not()).bit_or(field);
                &&& written.shift_right(shift).bit_and(mask) == field.shift_right(shift)
                &&& mask.shift_left(shift).shift_right(shift) == mask ==> field.shift_right(shift)
                    == val.bit_and(mask)
            }),
    ;

    /// Two values that agree outside `p` agree on every `q` that shares no
    /// bit with `p`.
    proof fn law_apart(a: Self, b: Self, p: Self, q: Self)
        requires
            a.bit_and(p.bit_not()) == b.bit_and(p.bit_not()),
            p.bit_and(q) == Self::zero(),
        ensures
            a.bit_and(q) == b.bit_and(q),
    ;

    /// A field read looks at the bits under the shifted mask only: two
    /// values that agree there read the same.
    proof fn law_read_is_local(a: Self, b: Self, shift: Self, mask: Self)
        requires
            a.bit_and(mask.shift_left(shift)) == b.bit_and(mask.shift_left(shift)),
        ensures
            a.shift_right(shift).bit_and(mask) == b.shift_right(shift).bit_and(mask),
    ;
}

/// The value with only bit `i` set; zero where the width has no bit `i`.
pub open spec fn bit_mask<T: RegisterType<T>>(i: T) -> T {
    T::one().shift_left(i)
}

/// What a register is: the address it is bound to and the value it caches.
pub struct RegisterView<T> {
    pub address: usize,
    pub value: T,
}

impl<T: RegisterType<T>> RegisterView<T> {
    /// The same address with `val` cached.
    pub open spec fn set(self, val: T) -> Self {
        RegisterView { address: self.address, value: val }
    }

    /// The same address with `value & val` cached.
    pub open spec fn and(self, val: T) -> Self {
        self.set(self.value.bit_and(val))
    }

    /// The same address with `value | val` cached.
    pub open spec fn or(self, val: T) -> Self {
        self.set(self.value.bit_or(val))
    }

    /// The same address with `value & !mask` cached.
    pub open spec fn clear(self, mask: T) -> Self {
        self.and(mask.bit_not())
    }

    /// Whether `value & (1 << i)` is not zero.
    pub open spec fn get_bit(self, i: T) -> bool {
        self.value.bit_and(bit_mask(i)) != T::zero()
    }

    /// The same address with `value | (1 << i)` cached where `v` is true,
    /// with `value & !(1 << i)` where it is false.
    pub open spec fn set_bit(self, i: T, v: bool) -> Self {
        if v {
            self.or(bit_mask(i))
        } else {
            self.clear(bit_mask(i))
        }
    }

    /// The field of the cached value under `mask` at `shift`.
    pub open spec fn get_masked(self, shift: T, mask: T) -> T {
        spec_read_masked(self.value, shift, mask)
    }

    /// The same address with `val` put into the field under `mask` at
    /// `shift` of the cached value.
    pub open spec fn set_masked(self, shift: T, mask: T, val: T) -> Self {
        self.set(spec_write_masked(self.value, shift, mask, val))
    }
}

/// One hardware register: a fixed address and the cached value that the
/// builder methods work on.
#[derive(Debug, PartialEq, Clone)]
pub struct Register<T: RegisterType<T>>(pub(crate) usize, pub(crate) T);

impl<T: RegisterType<T>> View for Register<T> {
    type V = RegisterView<T>;

    closed spec fn view(&self) -> RegisterView<T> {
        RegisterView { address: self.0, value: self.1 }
    }
}

impl<T: RegisterType<T>> Register<T> {
    /// Creates a register at `addr` with a cached value of zero.
    pub fn new(addr: usize) -> (r: Register<T>)
        ensures
            r@ == (RegisterView { address: addr, value: T::zero() }),
    {
        Register(addr, T::zero())
    }

    /// Creates a 16-bit register at `addr`.
    pub fn u16(addr: usize) -> (r: Register<u16>)
        ensures
            r@ == (RegisterView { address: addr, value: 0u16 }),
    {
        Register::<u16>::new(addr)
    }

    /// Creates a 32-bit register at `addr`.
    pub fn u32(addr: usize) -> (r: Register<u32>)
        ensures
            r@ == (RegisterView { address: addr, value: 0u32 }),
    {
        Register::<u32>::new(addr)
    }

    /// The address the register is bound to.
    pub fn address(&self) -> (a: usize)
        ensures
            a == self@.address,
    {
        self.0
    }

    /// A new register at the same address that holds `val`, such as a value
    /// just read from the hardware. The receiver keeps its cached value.
    pub fn with_value(&self, val: T) -> (r: Register<T>)
        ensures
            r@ == self@.set(val),
    {
        Register(self.0, val)
    }

    /// A new register at the same address whose cached value is zero. The
    /// receiver keeps its cached value.
    pub fn zero(&mut self) -> (r: Register<T>)
        ensures
            *final(self) == *old(self),
            r@ == old(self)@.set(T::zero()),
    {
        Register(self.0, T::zero())
    }

    /// The cached value.
    pub fn value(&self) -> (v: T)
        ensures
            v == self@.value,
    {
        self.1
    }

    /// Replaces the cached value.
    pub fn set(self, val: T) -> (r: Register<T>)
        ensures
            r@ == self@.set(val),
    {
        let mut reg = self;
        reg.1 = val;
        reg
    }

    /// Keeps the bits of the cached value that are also set in `val`.
    pub fn and(self, val: T) -> (r: Register<T>)
        ensures
            r@ == self@.and(val),
    {
        let mut reg = self;
        reg.1 = reg.1.bit_and(val);
        reg
    }

    /// Sets the bits of the cached value that are set in `val`.
    pub fn or(self, val: T) -> (r: Register<T>)
        ensures
            r@ == self@.or(val),
    {
        let mut reg = self;
        reg.1.bit_or_assign(val);
        reg
    }

    /// Clears the bits of the cached value that are set in `mask`.
    pub fn clear(self, mask: T) -> (r: Register<T>)
        ensures
            r@ == self@.clear(mask),
    {
        let mut reg = self;
        reg.1.bit_and_assign(mask.bit_not());
        reg
    }

    /// Whether bit `i` of the cached value is set.
    pub fn get_bit(&self, i: T) -> (b: bool)
        ensures
            b == self@.get_bit(i),
    {
        !self.1.bit_and(T::one().shift_left(i)).same(T::zero())
    }

    /// Sets bit `i` of the cached value where `v` is true, clears it where
    /// `v` is false.
    pub fn set_bit(self, i: T, v: bool) -> (r: Register<T>)
        ensures
            r@ == self@.set_bit(i, v),
    {
        let mut reg = self;
        let bit = T::one().shift_left(i);
        reg.1 = match v {
            true => reg.1.bit_or(bit),
            false => reg.1.bit_and(bit.bit_not()),
        };
        reg
    }

    /// The field of the cached value that lies under `mask` at `shift`.
    /// The shift comes first, so `mask` starts at bit 0.
    pub fn get_masked(&self, shift: T, mask: T) -> (v: T)
        ensures
            v == self@.get_masked(shift, mask),
    {
        read_masked(self.1, shift, mask)
    }

    /// Puts `val` into the field under `mask` at `shift`. The mask comes
    /// before the shift, so `mask` starts at bit 0.
    pub fn set_masked(self, shift: T, mask: T, val: T) -> (r: Register<T>)
        ensures
            r@ == self@.set_masked(shift, mask, val),
    {
        let mut reg = self;
        reg.1 = write_masked(reg.1, shift, mask, val);
        reg
    }
}

/// Setting bit `i` makes it read as set, provided the width has a bit `i`
/// (it reads as clear otherwise); clearing it makes it read as clear.
/// Neither changes another bit: the value keeps all bits but bit `i`, any
/// other bit `j` reads as before, and the address stays.
pub proof fn lemma_set_bit_then_get_bit<T: RegisterType<T>>(r: RegisterView<T>, i: T, j: T)
    ensures
        r.set_bit(i, true).get_bit(i) <==> bit_mask(i) != T::zero(),
        !r.set_bit(i, false).get_bit(i),
        forall|v: bool|
            (#[trigger] r.set_bit(i, v)).value.bit_and(bit_mask(i).bit_not()) == r.value.bit_and(
                bit_mask(i).bit_not(),
            ),
        i != j ==> forall|v: bool| #[trigger] r.set_bit(i, v).get_bit(j) == r.get_bit(j),
        forall|v: bool| (#[trigger] r.set_bit(i, v)).address == r.address,
{
    T::law_bit_write(r.value, i, j);
    if i != j {
        T::law_apart(r.set_bit(i, true).value, r.value, bit_mask(i), bit_mask(j));
        T::law_apart(r.set_bit(i, false).value, r.value, bit_mask(i), bit_mask(j));
    }
}

/// A chain of `set`, `and`, `or` and `clear` applies them in the order
/// written: the result is `((x & a) | b) & !c` at the same address, whatever
/// was cached before.
pub proof fn lemma_chain_applies_in_order<T: RegisterType<T>>(
    r: RegisterView<T>,
    x: T,
    a: T,
    b: T,
    c: T,
)
    ensures
        r.set(x).and(a).or(b).clear(c) == (RegisterView {
            address: r.address,
            value: x.bit_and(a).bit_or(b).bit_and(c.bit_not()),
        }),
{
}

} // verus!
