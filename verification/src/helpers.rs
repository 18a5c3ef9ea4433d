//! Masked reads and writes of a field inside a raw value, and named access
//! to the fields of a register through a table of field descriptions.
use crate::register::{bit_mask, One, Register, RegisterType, RegisterView, Zero};
use vstd::prelude::*;

verus! {

/// The field of `raw` under `mask` at `shift`: `(raw >> shift) & mask`.
pub open spec fn spec_read_masked<T: RegisterType<T>>(raw: T, shift: T, mask: T) -> T {
    raw.shift_right(shift).bit_and(mask)
}

/// `raw` with `val` put under `mask` at `shift`:
/// `(raw & !(mask << shift)) | ((val & mask) << shift)`.
pub open spec fn spec_write_masked<T: RegisterType<T>>(raw: T, shift: T, mask: T, val: T) -> T {
    raw.bit_and(mask.shift_left(shift).bit_not()).bit_or(val.bit_and(mask).shift_left(shift))
}

/// Reads the field of `raw` that lies under `mask` at `shift`.
#[verifier::when_used_as_spec(spec_read_masked)]
pub fn read_masked<T: RegisterType<T>>(raw: T, shift: T, mask: T) -> (v: T)
    ensures
        v == spec_read_masked(raw, shift, mask),
{
    raw.shift_right(shift).bit_and(mask)
}

/// Returns `raw` with the field under `mask` at `shift` replaced by `val`.
/// Bits of `val` beyond the mask are dropped.
#[verifier::when_used_as_spec(spec_write_masked)]
pub fn write_masked<T: RegisterType<T>>(raw: T, shift: T, mask: T, val: T) -> (r: T)
    ensures
        r == spec_write_masked(raw, shift, mask, val),
{
    raw.bit_and(mask.shift_left(shift).bit_not()).bit_or(val.bit_and(mask).shift_left(shift))
}

/// What a read of the field comes to after that field was written, for
/// every input: the masked value, as far as it survives the shift up and
/// down again. Under a mask that the shift does not cut, that is the masked
/// value itself.
pub proof fn lemma_read_after_write<T: RegisterType<T>>(raw: T, shift: T, mask: T, val: T)
    ensures
        spec_read_masked(spec_write_masked(raw, shift, mask, val), shift, mask) == val.bit_and(
            mask,
        ).shift_left(shift).shift_right(shift),
        mask.shift_left(shift).shift_right(shift) == mask ==> spec_read_masked(
            spec_write_masked(raw, shift, mask, val),
            shift,
            mask,
        ) == val.bit_and(mask),
{
    T::law_field_read_back(raw, shift, mask, val);
}

/// Round trip: a value written to a field is read back as `val & mask`,
/// whatever the raw value held, where the masked value is not cut off at
/// the top of the width.
pub proof fn lemma_write_then_read<T: RegisterType<T>>(raw: T, shift: T, mask: T, val: T)
    requires
        val.bit_and(mask).shift_left(shift).shift_right(shift) == val.bit_and(mask),
    ensures
        spec_read_masked(spec_write_masked(raw, shift, mask, val), shift, mask) == val.bit_and(
            mask,
        ),
{
    T::law_field_read_back(raw, shift, mask, val);
}

/// Non-interference: a write changes no bit outside `mask << shift`. The
/// raw value keeps all those bits at once, and any single bit `j` among
/// them; the bits under `mask << shift` take the masked value.
pub proof fn lemma_write_keeps_other_bits<T: RegisterType<T>>(
    raw: T,
    shift: T,
    mask: T,
    val: T,
    j: T,
)
    ensures
        ({
            let place = mask.shift_left(shift);
            let written = spec_write_masked(raw, shift, mask, val);
            &&& written.bit_and(place.bit_not()) == raw.bit_and(place.bit_not())
            &&& written.bit_and(place) == val.bit_and(mask).shift_left(shift)
            &&& place.bit_and(bit_mask(j)) == T::zero() ==> written.bit_and(bit_mask(j))
                == raw.bit_and(bit_mask(j))
        }),
{
    T::law_field_write(raw, shift, mask, val);
    let place = mask.shift_left(shift);
    if place.bit_and(bit_mask(j)) == T::zero() {
        T::law_apart(spec_write_masked(raw, shift, mask, val), raw, place, bit_mask(j));
    }
}

/// The slot of a register that holds its cached value, the only one a field
/// may live in. Slot 0 is the address, which no accessor touches.
pub const VALUE_SLOT: usize = 1;

/// How a field may be accessed.
#[derive(Clone, Copy, Debug, PartialEq, Eq)]
pub enum Access {
    ReadOnly,
    WriteOnly,
    ReadWrite,
}

impl Access {
    pub open spec fn spec_can_read(self) -> bool {
        self is ReadOnly || self is ReadWrite
    }

    pub open spec fn spec_can_write(self) -> bool {
        self is WriteOnly || self is ReadWrite
    }

    /// Whether a field of this mode has a read accessor.
    #[verifier::when_used_as_spec(spec_can_read)]
    pub fn can_read(self) -> (b: bool)
        ensures
            b == self.spec_can_read(),
    {
        match self {
            Access::WriteOnly => false,
            _ => true,
        }
    }

    /// Whether a field of this mode has a write accessor.
    #[verifier::when_used_as_spec(spec_can_write)]
    pub fn can_write(self) -> (b: bool)
        ensures
            b == self.spec_can_write(),
    {
        match self {
            Access::ReadOnly => false,
            _ => true,
        }
    }
}

/// The logical type of a field: one bit read as a boolean, or several bits
/// read as an unsigned number under a mask that starts at bit 0.
#[derive(Clone, Copy, Debug, PartialEq, Eq)]
pub enum FieldType<T> {
    Bool,
    Unsigned { mask: T },
}

/// A value read from a field or to be written to one.
#[derive(Clone, Copy, Debug, PartialEq, Eq)]
pub enum FieldValue<T> {
    Bool(bool),
    Unsigned(T),
}

/// Why an access through a field description was refused.
#[derive(Clone, Copy, Debug, PartialEq, Eq)]
pub enum FieldError {
    /// The table has no field of that name.
    UnknownField,
    /// The field names a slot that the register does not have.
    NoSuchSlot,
    /// The field is write-only.
    NotReadable,
    /// The field is read-only.
    NotWritable,
    /// A boolean was written to a multi-bit field, or a number to a
    /// single-bit field.
    WrongType,
}

/// The description of one field of a register.
#[derive(Clone, Debug, PartialEq)]
pub struct Field<T> {
    pub access: Access,
    pub name: String,
    pub slot: usize,
    pub kind: FieldType<T>,
    pub shift: T,
}

impl<T: RegisterType<T>> Field<T> {
    /// What a read of this field from `reg` gives.
    pub open spec fn spec_read(self, reg: RegisterView<T>) -> Result<FieldValue<T>, FieldError> {
        if self.slot != VALUE_SLOT {
            Err(FieldError::NoSuchSlot)
        } else if !self.access.can_read() {
            Err(FieldError::NotReadable)
        } else {
            match self.kind {
                FieldType::Bool => Ok(FieldValue::Bool(reg.get_bit(self.shift))),
                FieldType::Unsigned { mask } => Ok(
                    FieldValue::Unsigned(reg.get_masked(self.shift, mask)),
                ),
            }
        }
    }

    /// What a write of `val` to this field of `reg` gives.
    pub open spec fn spec_write(self, reg: RegisterView<T>, val: FieldValue<T>) -> Result<
        RegisterView<T>,
        FieldError,
    > {
        if self.slot != VALUE_SLOT {
            Err(FieldError::NoSuchSlot)
        } else if !self.access.can_write() {
            Err(FieldError::NotWritable)
        } else {
            match (self.kind, val) {
                (FieldType::Bool, FieldValue::Bool(v)) => Ok(reg.set_bit(self.shift, v)),
                (FieldType::Unsigned { mask }, FieldValue::Unsigned(v)) => Ok(
                    reg.set_masked(self.shift, mask, v),
                ),
                _ => Err(FieldError::WrongType),
            }
        }
    }

    /// The bits of the value that the field covers.
    pub open spec fn place(self) -> T {
        match self.kind {
            FieldType::Bool => bit_mask(self.shift),
            FieldType::Unsigned { mask } => mask.shift_left(self.shift),
        }
    }

    /// Whether the description is sound: the field lives in the value slot,
    /// and its bits lie inside the width. A multi-bit mask is a run of set
    /// bits from bit 0 up, not empty, none of which the shift pushes out.
    pub open spec fn well_formed(self) -> bool {
        &&& self.slot == VALUE_SLOT
        &&& match self.kind {
            FieldType::Bool => bit_mask(self.shift) != T::zero(),
            FieldType::Unsigned { mask } => {
                &&& mask != T::zero()
                &&& mask.shift_right(T::one()).bit_and(mask) == mask.shift_right(T::one())
                &&& mask.shift_left(self.shift).shift_right(self.shift) == mask
            },
        }
    }

    /// Reads the field from the cached value of `reg`: a single bit through
    /// `get_bit`, several through `get_masked`.
    pub fn read(&self, reg: &Register<T>) -> (r: Result<FieldValue<T>, FieldError>)
        ensures
            r == self.spec_read(reg@),
    {
        if self.slot != VALUE_SLOT {
            Err(FieldError::NoSuchSlot)
        } else if !self.access.can_read() {
            Err(FieldError::NotReadable)
        } else {
            match self.kind {
                FieldType::Bool => Ok(FieldValue::Bool(reg.get_bit(self.shift))),
                FieldType::Unsigned { mask } => Ok(
                    FieldValue::Unsigned(reg.get_masked(self.shift, mask)),
                ),
            }
        }
    }

    /// Writes `val` to the field in the cached value of `reg` and hands the
    /// register back: a single bit through `set_bit`, several through
    /// `set_masked`.
    pub fn write(&self, reg: Register<T>, val: FieldValue<T>) -> (r: Result<
        Register<T>,
        FieldError,
    >)
        ensures
            outcome(r) == self.spec_write(reg@, val),
    {
        if self.slot != VALUE_SLOT {
            Err(FieldError::NoSuchSlot)
        } else if !self.access.can_write() {
            Err(FieldError::NotWritable)
        } else {
            match (self.kind, val) {
                (FieldType::Bool, FieldValue::Bool(v)) => Ok(reg.set_bit(self.shift, v)),
                (FieldType::Unsigned { mask }, FieldValue::Unsigned(v)) => Ok(
                    reg.set_masked(self.shift, mask, v),
                ),
                _ => Err(FieldError::WrongType),
            }
        }
    }

    /// Checks the description before it is used: see `well_formed`.
    pub fn is_well_formed(&self) -> (b: bool)
        ensures
            b == self.well_formed(),
    {
        if self.slot != VALUE_SLOT {
            return false;
        }
        match self.kind {
            FieldType::Bool => !T::one().shift_left(self.shift).same(T::zero()),
            FieldType::Unsigned { mask } => {
                let lower = mask.shift_right(T::one());
                !mask.same(T::zero()) && lower.bit_and(mask).same(lower) && mask.shift_left(
                    self.shift,
                ).shift_right(self.shift).same(mask)
            },
        }
    }
}

/// The result of a write, with the register taken by its view.
pub open spec fn outcome<T: RegisterType<T>>(r: Result<Register<T>, FieldError>) -> Result<
    RegisterView<T>,
    FieldError,
> {
    match r {
        Ok(reg) => Ok(reg@),
        Err(e) => Err(e),
    }
}

/// Whether some field of the table is called `name`.
pub open spec fn has_field<T>(table: Seq<Field<T>>, name: Seq<char>) -> bool {
    exists|i: int| 0 <= i < table.len() && (#[trigger] table[i]).name@ == name
}

/// Whether `i` is the first field of the table that is called `name`.
pub open spec fn is_first_named<T>(table: Seq<Field<T>>, name: Seq<char>, i: int) -> bool {
    &&& 0 <= i < table.len()
    &&& table[i].name@ == name
    &&& forall|j: int| 0 <= j < i ==> (#[trigger] table[j]).name@ != name
}

/// Whether the description at `i` is sound and is the first of its name,
/// so that a lookup by that name reaches it.
pub open spec fn is_sound_at<T: RegisterType<T>>(table: Seq<Field<T>>, i: int) -> bool {
    table[i].well_formed() && is_first_named(table, table[i].name@, i)
}

/// The index of the first field called `name`, if the table has one.
pub fn find<T: RegisterType<T>>(table: &[Field<T>], name: &str) -> (r: Option<usize>)
    ensures
        match r {
            Some(i) => is_first_named(table@, name@, i as int),
            None => !has_field(table@, name@),
        },
{
    let key = name.to_owned();
    let mut i: usize = 0;
    while i < table.len()
        invariant
            i <= table.len(),
            key@ == name@,
            forall|j: int| 0 <= j < i ==> (#[trigger] table@[j]).name@ != name@,
        decreases table.len() - i,
    {
        if table[i].name == key {
            return Some(i);
        }
        i += 1;
    }
    None
}

/// Reads the field called `name` from `reg`, through the first description
/// of that name in the table.
pub fn get_field<T: RegisterType<T>>(table: &[Field<T>], reg: &Register<T>, name: &str) -> (r:
    Result<FieldValue<T>, FieldError>)
    ensures
        !has_field(table@, name@) ==> r == Err::<FieldValue<T>, FieldError>(
            FieldError::UnknownField,
        ),
        forall|i: int| is_first_named(table@, name@, i) ==> r == table@[i].spec_read(reg@),
{
    match find(table, name) {
        Some(i) => table[i].read(reg),
        None => Err(FieldError::UnknownField),
    }
}

/// Writes `val` to the field called `name` of `reg`, through the first
/// description of that name in the table, and hands the register back.
pub fn set_field<T: RegisterType<T>>(
    table: &[Field<T>],
    reg: Register<T>,
    name: &str,
    val: FieldValue<T>,
) -> (r: Result<Register<T>, FieldError>)
    ensures
        !has_field(table@, name@) ==> outcome(r) == Err::<RegisterView<T>, FieldError>(
            FieldError::UnknownField,
        ),
        forall|i: int| is_first_named(table@, name@, i) ==> outcome(r) == table@[i].spec_write(
            reg@,
            val,
        ),
{
    match find(table, name) {
        Some(i) => table[i].write(reg, val),
        None => Err(FieldError::UnknownField),
    }
}

/// Checks a table before it is used: the index of the first description
/// that is malformed or repeats an earlier name, if there is one.
pub fn first_unsound<T: RegisterType<T>>(table: &[Field<T>]) -> (r: Option<usize>)
    ensures
        match r {
            Some(i) => {
                &&& i < table@.len()
                &&& !is_sound_at(table@, i as int)
                &&& forall|j: int| 0 <= j < i ==> is_sound_at(table@, j)
            },
            None => forall|j: int| 0 <= j < table@.len() ==> is_sound_at(table@, j),
        },
{
    let mut i: usize = 0;
    while i < table.len()
        invariant
            i <= table.len(),
            forall|j: int| 0 <= j < i ==> is_sound_at(table@, j),
        decreases table.len() - i,
    {
        let first = find(table, table[i].name.as_str());
        if !table[i].is_well_formed() || first != Some(i) {
            return Some(i);
        }
        i += 1;
    }
    None
}

/// A well-formed read-write field gives back what was written to it: a
/// boolean as it is, a number cut to the mask. A value of the other type is
/// refused.
pub proof fn lemma_field_write_then_read<T: RegisterType<T>>(
    field: Field<T>,
    reg: RegisterView<T>,
    val: FieldValue<T>,
)
    requires
        field.well_formed(),
        field.access is ReadWrite,
    ensures
        match (field.kind, val) {
            (FieldType::Bool, FieldValue::Bool(v)) => {
                &&& field.spec_write(reg, val) matches Ok(written)
                &&& field.spec_read(written) == Ok::<FieldValue<T>, FieldError>(FieldValue::Bool(v))
            },
            (FieldType::Unsigned { mask }, FieldValue::Unsigned(v)) => {
                &&& field.spec_write(reg, val) matches Ok(written)
                &&& field.spec_read(written) == Ok::<FieldValue<T>, FieldError>(
                    FieldValue::Unsigned(v.bit_and(mask)),
                )
            },
            _ => field.spec_write(reg, val) == Err::<RegisterView<T>, FieldError>(
                FieldError::WrongType,
            ),
        },
{
    match (field.kind, val) {
        (FieldType::Bool, FieldValue::Bool(v)) => {
            T::law_bit_write(reg.value, field.shift, field.shift);
        },
        (FieldType::Unsigned { mask }, FieldValue::Unsigned(v)) => {
            T::law_field_read_back(reg.value, field.shift, mask, v);
        },
        _ => {},
    }
}

/// Fields that cover no bit in common do not disturb each other: a write
/// to one leaves what the other reads as it was.
pub proof fn lemma_fields_apart<T: RegisterType<T>>(
    field: Field<T>,
    other: Field<T>,
    reg: RegisterView<T>,
    val: FieldValue<T>,
)
    requires
        field.place().bit_and(other.place()) == T::zero(),
    ensures
        field.spec_write(reg, val) matches Ok(written) ==> {
            &&& written.address == reg.address
            &&& other.spec_read(written) == other.spec_read(reg)
        },
{
    if let Ok(written) = field.spec_write(reg, val) {
        match (field.kind, val) {
            (FieldType::Bool, FieldValue::Bool(v)) => {
                T::law_bit_write(reg.value, field.shift, field.shift);
            },
            (FieldType::Unsigned { mask }, FieldValue::Unsigned(v)) => {
                T::law_field_write(reg.value, field.shift, mask, v);
            },
            _ => {},
        }
        T::law_apart(written.value, reg.value, field.place(), other.place());
        if let FieldType::Unsigned { mask } = other.kind {
            T::law_read_is_local(written.value, reg.value, other.shift, mask);
        }
    }
}

} // verus!
