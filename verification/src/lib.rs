//! Memory-mapped hardware registers as typed values with bit-accurate field
//! access.
//!
//! A [`register::Register`] binds a cached value to a fixed address and is
//! changed through a chain of builder calls. The value may be any unsigned
//! integer that has the capability [`register::RegisterType`]; [`native`]
//! gives it to `u8`, `u16`, `u32` and `u64`. [`helpers`] holds the masked
//! read and write that every field access comes down to, and access to the
//! fields of a register by name, through a table of field descriptions.
//! [`region::Region`] is a bounds-checked view of an array of objects in
//! memory.
//!
//! Every function is total. The shifts of a register never overflow: a shift
//! by the width or more reaches no bit and leaves zero.
pub mod helpers;
pub mod native;
pub mod region;
pub mod register;
