use embedded_builder::helpers::{
    first_unsound, find, get_field, read_masked, set_field, write_masked, Access, Field,
    FieldError, FieldType, FieldValue, VALUE_SLOT,
};
use embedded_builder::register::Register;

fn bit(access: Access, name: &str, slot: usize, shift: u16) -> Field<u16> {
    Field { access, name: name.to_string(), slot, kind: FieldType::Bool, shift }
}

fn var(access: Access, name: &str, slot: usize, shift: u16, mask: u16) -> Field<u16> {
    Field { access, name: name.to_string(), slot, kind: FieldType::Unsigned { mask }, shift }
}

fn testreg1() -> Vec<Field<u16>> {
    vec![
        bit(Access::ReadOnly, "read_bit1", 1, 1),
        bit(Access::WriteOnly, "write_bit1", 1, 1),
        var(Access::ReadOnly, "read_var1", 1, 2, 0b111),
        var(Access::WriteOnly, "write_var1", 1, 2, 0b111),
    ]
}

#[test]
fn register_traits() {
    let table = testreg1();
    let mut r = Register::<u16>::new(0);

    assert_eq!(0, r.value());
    assert_eq!(Ok(FieldValue::Bool(false)), get_field(&table, &r, "read_bit1"));
    r = set_field(&table, r, "write_bit1", FieldValue::Bool(true)).unwrap();
    assert_eq!(Ok(FieldValue::Bool(true)), get_field(&table, &r, "read_bit1"));
    assert_eq!(1 << 1, r.value());

    assert_eq!(Ok(FieldValue::Unsigned(0)), get_field(&table, &r, "read_var1"));
    r = set_field(&table, r, "write_var1", FieldValue::Unsigned(3)).unwrap();
    assert_eq!(Ok(FieldValue::Unsigned(3)), get_field(&table, &r, "read_var1"));

    assert_eq!(1 << 1 | 3 << 2, r.value());
}

#[test]
fn read_write_field_of_three_bits() {
    let table = vec![
        bit(Access::ReadWrite, "enable", VALUE_SLOT, 1),
        var(Access::ReadWrite, "mode", VALUE_SLOT, 2, 0b111),
    ];
    assert_eq!(None, first_unsound(&table));
    let mut r = Register::<u16>::new(0);
    assert_eq!(Ok(FieldValue::Unsigned(0)), get_field(&table, &r, "mode"));
    r = set_field(&table, r, "mode", FieldValue::Unsigned(3)).unwrap();
    r = set_field(&table, r, "enable", FieldValue::Bool(true)).unwrap();
    assert_eq!(14, r.value());
    assert_eq!(Ok(FieldValue::Unsigned(3)), get_field(&table, &r, "mode"));
    assert_eq!(Ok(FieldValue::Bool(true)), get_field(&table, &r, "enable"));
    r = set_field(&table, r, "enable", FieldValue::Bool(false)).unwrap();
    assert_eq!(12, r.value());
}

#[test]
fn read_masked_shifts_then_masks() {
    assert_eq!(0x0F, read_masked(0xFAF0u16, 4, 0xF));
    assert_eq!(0xFA, read_masked(0xFAF0u16, 8, 0xFF));
    assert_eq!(0b101, read_masked(0b1011_0100u8, 2, 0b111));
    assert_eq!(0xDEAD, read_masked(0xDEAD_BEEFu32, 16, 0xFFFF));
    assert_eq!(0x1, read_masked(0x8000_0000_0000_0000u64, 63, 0x1));
}

#[test]
fn write_masked_replaces_the_field_only() {
    assert_eq!(0xAB5D, write_masked(0xABCDu16, 4, 0xF, 0x5));
    assert_eq!(0b1010_1100u8, write_masked(0b1011_0100u8, 2, 0b111, 0b011));
    assert_eq!(0x1234_BEEF, write_masked(0xDEAD_BEEFu32, 16, 0xFFFF, 0x1234));
    assert_eq!(0x7FFF_FFFF_FFFF_FFFF, write_masked(u64::MAX, 63, 0x1, 0));
}

#[test]
fn write_masked_drops_bits_beyond_the_mask() {
    assert_eq!(0x00F0, write_masked(0x0000u16, 4, 0xF, 0xFFFF));
    assert_eq!(0xAB5D, write_masked(0xABCDu16, 4, 0xF, 0xFFF5));
}

#[test]
fn round_trip_gives_the_masked_value() {
    for raw in [0x0000u16, 0xFFFF, 0xA5A5, 0x1234] {
        for (shift, mask) in [(0u16, 0xFFu16), (4, 0xF), (8, 0xF), (12, 0xF), (2, 0b111), (15, 1)] {
            for val in [0u16, 1, 3, 0xA, 0xFF, 0xFFFF] {
                let written = write_masked(raw, shift, mask, val);
                assert_eq!(val & mask, read_masked(written, shift, mask));
            }
        }
    }
}

#[test]
fn round_trip_loses_what_the_shift_pushes_out() {
    let written = write_masked(0x00u8, 4, 0xFF, 0xFF);
    assert_eq!(0xF0, written);
    assert_eq!(0x0F, read_masked(written, 4, 0xFF));
}

#[test]
fn write_keeps_bits_outside_the_field() {
    for raw in [0x0000u16, 0xFFFF, 0xA5A5, 0x1234] {
        for val in [0u16, 0x5, 0xF, 0xFFFF] {
            let written = write_masked(raw, 4, 0xF, val);
            assert_eq!(raw & 0x000F, written & 0x000F);
            assert_eq!(raw & 0xFF00, written & 0xFF00);
            assert_eq!((val & 0xF) << 4, written & 0x00F0);
        }
    }
}

#[test]
fn shift_by_the_width_or_more_reaches_no_bit() {
    assert_eq!(0, read_masked(0xFFu8, 8, 0xFF));
    assert_eq!(0, read_masked(0xFFFFu16, 16, 0xFFFF));
    assert_eq!(0, read_masked(u32::MAX, 32, u32::MAX));
    assert_eq!(0, read_masked(u64::MAX, 64, u64::MAX));
    assert_eq!(0, read_masked(u64::MAX, 200, u64::MAX));
    assert_eq!(0xA5, write_masked(0xA5u8, 8, 0xFF, 0xFF));
    assert_eq!(0xA5A5, write_masked(0xA5A5u16, 16, 0xF, 0xF));
    assert_eq!(0xA5A5_A5A5, write_masked(0xA5A5_A5A5u32, 40, 0xF, 0xF));
    assert_eq!(7, write_masked(7u64, 64, 0xF, 0xF));
}

#[test]
fn find_gives_the_first_field_of_a_name() {
    let table = vec![
        bit(Access::ReadWrite, "a", VALUE_SLOT, 0),
        bit(Access::ReadWrite, "b", VALUE_SLOT, 1),
        bit(Access::ReadWrite, "a", VALUE_SLOT, 2),
    ];
    assert_eq!(Some(0), find(&table, "a"));
    assert_eq!(Some(1), find(&table, "b"));
    assert_eq!(None, find(&table, "c"));
    assert_eq!(None, find(&table, ""));
    let empty: Vec<Field<u16>> = Vec::new();
    assert_eq!(None, find(&empty, "a"));
}

#[test]
fn unknown_field_is_refused() {
    let table = testreg1();
    let r = Register::<u16>::new(0);
    assert_eq!(Err(FieldError::UnknownField), get_field(&table, &r, "read_bit2"));
    assert_eq!(
        Err(FieldError::UnknownField),
        set_field(&table, r, "bit1", FieldValue::Bool(true))
    );
}

#[test]
fn access_mode_is_enforced() {
    let table = testreg1();
    let r = Register::<u16>::new(0);
    assert_eq!(Err(FieldError::NotReadable), get_field(&table, &r, "write_bit1"));
    assert_eq!(Err(FieldError::NotReadable), get_field(&table, &r, "write_var1"));
    assert_eq!(
        Err(FieldError::NotWritable),
        set_field(&table, r.clone(), "read_bit1", FieldValue::Bool(true))
    );
    assert_eq!(
        Err(FieldError::NotWritable),
        set_field(&table, r, "read_var1", FieldValue::Unsigned(1))
    );
    assert!(Access::ReadOnly.can_read() && !Access::ReadOnly.can_write());
    assert!(!Access::WriteOnly.can_read() && Access::WriteOnly.can_write());
    assert!(Access::ReadWrite.can_read() && Access::ReadWrite.can_write());
}

#[test]
fn value_of_the_other_type_is_refused() {
    let f = bit(Access::ReadWrite, "flag", VALUE_SLOT, 3);
    let g = var(Access::ReadWrite, "num", VALUE_SLOT, 3, 0b11);
    let r = Register::<u16>::new(0);
    assert_eq!(Err(FieldError::WrongType), f.write(r.clone(), FieldValue::Unsigned(1)));
    assert_eq!(Err(FieldError::WrongType), g.write(r, FieldValue::Bool(true)));
}

#[test]
fn only_the_value_slot_is_served() {
    let f = bit(Access::ReadWrite, "flag", 0, 3);
    let g = var(Access::ReadWrite, "num", 2, 3, 0b11);
    let r = Register::<u16>::new(0x40);
    assert_eq!(Err(FieldError::NoSuchSlot), f.read(&r));
    assert_eq!(Err(FieldError::NoSuchSlot), g.read(&r));
    assert_eq!(Err(FieldError::NoSuchSlot), f.write(r.clone(), FieldValue::Bool(true)));
    assert_eq!(Err(FieldError::NoSuchSlot), g.write(r, FieldValue::Bool(true)));
    assert_eq!(1, VALUE_SLOT);
}

#[test]
fn field_read_and_write() {
    let f = bit(Access::ReadWrite, "flag", VALUE_SLOT, 3);
    let g = var(Access::ReadWrite, "num", VALUE_SLOT, 4, 0xF);
    let mut r = Register::<u16>::new(8).set(0xA5A5);
    assert_eq!(Ok(FieldValue::Bool(false)), f.read(&r));
    assert_eq!(Ok(FieldValue::Unsigned(0xA)), g.read(&r));
    r = f.write(r, FieldValue::Bool(true)).unwrap();
    assert_eq!(0xA5AD, r.value());
    r = g.write(r, FieldValue::Unsigned(0x3C)).unwrap();
    assert_eq!(0xA5CD, r.value());
    assert_eq!(Ok(FieldValue::Unsigned(0xC)), g.read(&r));
    assert_eq!(8, r.address());
}

#[test]
fn well_formed_fields() {
    assert!(bit(Access::ReadOnly, "b", VALUE_SLOT, 0).is_well_formed());
    assert!(bit(Access::ReadOnly, "b", VALUE_SLOT, 15).is_well_formed());
    assert!(!bit(Access::ReadOnly, "b", VALUE_SLOT, 16).is_well_formed());
    assert!(!bit(Access::ReadOnly, "b", 0, 3).is_well_formed());
    assert!(var(Access::ReadWrite, "v", VALUE_SLOT, 2, 0b111).is_well_formed());
    assert!(var(Access::ReadWrite, "v", VALUE_SLOT, 0, 0xFFFF).is_well_formed());
    assert!(var(Access::ReadWrite, "v", VALUE_SLOT, 13, 0b111).is_well_formed());
    assert!(!var(Access::ReadWrite, "v", VALUE_SLOT, 14, 0b111).is_well_formed());
    assert!(!var(Access::ReadWrite, "v", VALUE_SLOT, 16, 0b1).is_well_formed());
    assert!(!var(Access::ReadWrite, "v", VALUE_SLOT, 2, 0).is_well_formed());
    assert!(!var(Access::ReadWrite, "v", VALUE_SLOT, 2, 0b101).is_well_formed());
    assert!(!var(Access::ReadWrite, "v", VALUE_SLOT, 2, 0b110).is_well_formed());
    assert!(!var(Access::ReadWrite, "v", 3, 2, 0b111).is_well_formed());
}

#[test]
fn first_unsound_finds_malformed_and_repeated_fields() {
    assert_eq!(None, first_unsound(&testreg1()));
    let empty: Vec<Field<u16>> = Vec::new();
    assert_eq!(None, first_unsound(&empty));
    let repeated = vec![
        bit(Access::ReadWrite, "a", VALUE_SLOT, 0),
        bit(Access::ReadWrite, "b", VALUE_SLOT, 1),
        bit(Access::ReadWrite, "a", VALUE_SLOT, 2),
    ];
    assert_eq!(Some(2), first_unsound(&repeated));
    let overrun = vec![
        bit(Access::ReadWrite, "a", VALUE_SLOT, 0),
        var(Access::ReadWrite, "b", VALUE_SLOT, 12, 0xFF),
        bit(Access::ReadWrite, "a", VALUE_SLOT, 2),
    ];
    assert_eq!(Some(1), first_unsound(&overrun));
}

#[test]
fn well_formed_field_gives_back_what_was_written() {
    let g = var(Access::ReadWrite, "num", VALUE_SLOT, 5, 0x3F);
    assert!(g.is_well_formed());
    for raw in [0u16, 0xFFFF, 0x1234] {
        for val in [0u16, 1, 0x2A, 0x3F, 0x40, 0xFFFF] {
            let r = g.write(Register::<u16>::new(0).set(raw), FieldValue::Unsigned(val)).unwrap();
            assert_eq!(Ok(FieldValue::Unsigned(val & 0x3F)), g.read(&r));
        }
    }
    let f = bit(Access::ReadWrite, "flag", VALUE_SLOT, 9);
    assert!(f.is_well_formed());
    for raw in [0u16, 0xFFFF, 0x1234] {
        for val in [false, true] {
            let r = f.write(Register::<u16>::new(0).set(raw), FieldValue::Bool(val)).unwrap();
            assert_eq!(Ok(FieldValue::Bool(val)), f.read(&r));
        }
    }
}
