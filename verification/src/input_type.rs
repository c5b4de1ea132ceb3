//! The `TYPE` field of a data message: the type of the values in its `DATA` field.
use vstd::prelude::*;
use crate::decimal::{nat_decimal, spec_decimal};

verus! {

/// Type of the values carried in the `DATA` field of a data message.
///
/// - 8 - u8, 1 byte unsigned integer value
/// - 9 - i8, 1 byte signed integer value
/// - 16 - u16, 2 byte unsigned integer value
/// - 17 - i16, 2 byte signed integer value
/// - 32 - u32, 4 byte unsigned integer value
/// - 33 - i32, 4 byte signed integer value
/// - 132 - f32, 4 bytes float value
#[derive(Debug, Clone, Copy, PartialEq, Eq, Structural)]
pub enum InputType {
    U8,
    I8,
    U16,
    I16,
    U32,
    I32,
    F32,
}

/// The raw protocol code of each input type.
pub open spec fn spec_code(t: InputType) -> u8 {
    match t {
        InputType::U8 => 8,
        InputType::I8 => 9,
        InputType::U16 => 16,
        InputType::I16 => 17,
        InputType::U32 => 32,
        InputType::I32 => 33,
        InputType::F32 => 132,
    }
}

/// The size in bytes of a single value of each input type.
pub open spec fn spec_size(t: InputType) -> usize {
    match t {
        InputType::U8 | InputType::I8 => 1,
        InputType::U16 | InputType::I16 => 2,
        InputType::U32 | InputType::I32 | InputType::F32 => 4,
    }
}

/// The input type whose raw code is `val`, if there is one.
pub open spec fn spec_from_code(val: u8) -> Option<InputType> {
    if val == 8 {
        Some(InputType::U8)
    } else if val == 9 {
        Some(InputType::I8)
    } else if val == 16 {
        Some(InputType::U16)
    } else if val == 17 {
        Some(InputType::I16)
    } else if val == 32 {
        Some(InputType::U32)
    } else if val == 33 {
        Some(InputType::I32)
    } else if val == 132 {
        Some(InputType::F32)
    } else {
        None
    }
}

/// A raw `TYPE` code that names no input type.
#[derive(Debug, Clone, Copy, PartialEq, Eq, Structural)]
pub struct UnknownInputType {
    pub value: u8,
}

/// The text of an unknown-type error for the raw code `value`.
pub open spec fn spec_unknown_message(value: u8) -> Seq<char> {
    "Unknown InputType value "@ + spec_decimal(value as nat)
}

impl UnknownInputType {
    /// Returns the text of the error: `Unknown InputType value {value}`.
    pub fn message(&self) -> (res: String)
        ensures
            res@ == spec_unknown_message(self.value),
    {
        let head = String::from_str("Unknown InputType value ");
        let digits = nat_decimal(self.value as u64);
        head.concat(digits.as_str())
    }
}

impl InputType {
    /// Returns the size of the [InputType] in bytes.
    pub fn size(&self) -> (res: usize)
        ensures
            res == spec_size(*self),
    {
        match self {
            InputType::U8 => 1,
            InputType::I8 => 1,
            InputType::U16 => 2,
            InputType::I16 => 2,
            InputType::U32 => 4,
            InputType::I32 => 4,
            InputType::F32 => 4,
        }
    }

    /// Returns the raw protocol code of the [InputType].
    pub fn code(&self) -> (res: u8)
        ensures
            res == spec_code(*self),
    {
        match self {
            InputType::U8 => 8,
            InputType::I8 => 9,
            InputType::U16 => 16,
            InputType::I16 => 17,
            InputType::U32 => 32,
            InputType::I32 => 33,
            InputType::F32 => 132,
        }
    }

    /// Returns the [InputType] created from its raw value.
    pub fn try_from(val: u8) -> (res: Result<InputType, UnknownInputType>)
        ensures
            match spec_from_code(val) {
                Some(t) => res == Ok::<InputType, UnknownInputType>(t),
                None => res == Err::<InputType, UnknownInputType>(UnknownInputType { value: val }),
            },
    {
        if val == 8 {
            Ok(InputType::U8)
        } else if val == 9 {
            Ok(InputType::I8)
        } else if val == 16 {
            Ok(InputType::U16)
        } else if val == 17 {
            Ok(InputType::I16)
        } else if val == 32 {
            Ok(InputType::U32)
        } else if val == 33 {
            Ok(InputType::I32)
        } else if val == 132 {
            Ok(InputType::F32)
        } else {
            Err(UnknownInputType { value: val })
        }
    }

    /// Returns the name of the [InputType], as it is displayed.
    pub fn to_string(&self) -> (res: String)
        ensures
            res@ == spec_name(*self),
    {
        match self {
            InputType::U8 => String::from_str("U8"),
            InputType::I8 => String::from_str("I8"),
            InputType::U16 => String::from_str("U16"),
            InputType::I16 => String::from_str("I16"),
            InputType::U32 => String::from_str("U32"),
            InputType::I32 => String::from_str("I32"),
            InputType::F32 => String::from_str("F32"),
        }
    }
}

/// The displayed name of each input type.
pub open spec fn spec_name(t: InputType) -> Seq<char> {
    match t {
        InputType::U8 => "U8"@,
        InputType::I8 => "I8"@,
        InputType::U16 => "U16"@,
        InputType::I16 => "I16"@,
        InputType::U32 => "U32"@,
        InputType::I32 => "I32"@,
        InputType::F32 => "F32"@,
    }
}

impl Default for InputType {
    /// The default input type is `U16`.
    fn default() -> (res: InputType)
        ensures
            res == InputType::U16,
    {
        InputType::U16
    }
}

/// The documented `TYPE` codes: 8 is `u8`, 9 is `i8`, 16 is `u16`, 17 is
/// `i16`, 32 is `u32`, 33 is `i32`, 132 is `f32`; no other code names a type.
/// Each type takes as many bytes as its name says.
pub proof fn lemma_documented_codes(val: u8)
    ensures
        spec_from_code(8) == Some(InputType::U8),
        spec_from_code(9) == Some(InputType::I8),
        spec_from_code(16) == Some(InputType::U16),
        spec_from_code(17) == Some(InputType::I16),
        spec_from_code(32) == Some(InputType::U32),
        spec_from_code(33) == Some(InputType::I32),
        spec_from_code(132) == Some(InputType::F32),
        val != 8 && val != 9 && val != 16 && val != 17 && val != 32 && val != 33 && val != 132
            ==> spec_from_code(val) is None,
        spec_code(InputType::U8) == 8 && spec_code(InputType::I8) == 9,
        spec_code(InputType::U16) == 16 && spec_code(InputType::I16) == 17,
        spec_code(InputType::U32) == 32 && spec_code(InputType::I32) == 33,
        spec_code(InputType::F32) == 132,
        spec_size(InputType::U8) == 1 && spec_size(InputType::I8) == 1,
        spec_size(InputType::U16) == 2 && spec_size(InputType::I16) == 2,
        spec_size(InputType::U32) == 4 && spec_size(InputType::I32) == 4,
        spec_size(InputType::F32) == 4,
{
}

/// Every input type is recovered from its raw code.
pub proof fn lemma_code_roundtrip(t: InputType)
    ensures
        spec_from_code(spec_code(t)) == Some(t),
{
}

/// A raw code that names an input type is that type's code.
pub proof fn lemma_from_code_inverse(val: u8)
    ensures
        spec_from_code(val) matches Some(t) ==> spec_code(t) == val,
{
}

} // verus!
