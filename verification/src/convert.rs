//! Conversions between register values and the Rust types they hold.
use vstd::prelude::*;
use vstd::std_specs::convert::{FromSpec, FromSpecImpl, TryFromSpec, TryFromSpecImpl};

use crate::value::{f80, u8x16, u8x8, RegisterType, RegisterTypeError, RegisterValue};

verus! {

impl From<u8> for RegisterValue {
    fn from(value: u8) -> (r: RegisterValue) {
        RegisterValue::U8(value)
    }
}

impl FromSpecImpl<u8> for RegisterValue {
    open spec fn obeys_from_spec() -> bool {
        true
    }

    open spec fn from_spec(v: u8) -> RegisterValue {
        RegisterValue::U8(v)
    }
}

impl TryFrom<RegisterValue> for u8 {
    type Error = RegisterTypeError;

    fn try_from(value: RegisterValue) -> (r: Result<u8, RegisterTypeError>) {
        if let RegisterValue::U8(x) = value {
            Ok(x)
        } else {
            Err(RegisterTypeError { expected: RegisterType::U8, actual: value.ty() })
        }
    }
}

impl TryFromSpecImpl<RegisterValue> for u8 {
    open spec fn obeys_try_from_spec() -> bool {
        true
    }

    open spec fn try_from_spec(v: RegisterValue) -> Result<u8, RegisterTypeError> {
        if let RegisterValue::U8(x) = v {
            Ok(x)
        } else {
            Err(RegisterTypeError { expected: RegisterType::U8, actual: v.spec_ty() })
        }
    }
}

impl From<u16> for RegisterValue {
    fn from(value: u16) -> (r: RegisterValue) {
        RegisterValue::U16(value)
    }
}

impl FromSpecImpl<u16> for RegisterValue {
    open spec fn obeys_from_spec() -> bool {
        true
    }

    open spec fn from_spec(v: u16) -> RegisterValue {
        RegisterValue::U16(v)
    }
}

impl TryFrom<RegisterValue> for u16 {
    type Error = RegisterTypeError;

    fn try_from(value: RegisterValue) -> (r: Result<u16, RegisterTypeError>) {
        if let RegisterValue::U16(x) = value {
            Ok(x)
        } else {
            Err(RegisterTypeError { expected: RegisterType::U16, actual: value.ty() })
        }
    }
}

impl TryFromSpecImpl<RegisterValue> for u16 {
    open spec fn obeys_try_from_spec() -> bool {
        true
    }

    open spec fn try_from_spec(v: RegisterValue) -> Result<u16, RegisterTypeError> {
        if let RegisterValue::U16(x) = v {
            Ok(x)
        } else {
            Err(RegisterTypeError { expected: RegisterType::U16, actual: v.spec_ty() })
        }
    }
}

impl From<u32> for RegisterValue {
    fn from(value: u32) -> (r: RegisterValue) {
        RegisterValue::U32(value)
    }
}

impl FromSpecImpl<u32> for RegisterValue {
    open spec fn obeys_from_spec() -> bool {
        true
    }

    open spec fn from_spec(v: u32) -> RegisterValue {
        RegisterValue::U32(v)
    }
}

impl TryFrom<RegisterValue> for u32 {
    type Error = RegisterTypeError;

    fn try_from(value: RegisterValue) -> (r: Result<u32, RegisterTypeError>) {
        if let RegisterValue::U32(x) = value {
            Ok(x)
        } else {
            Err(RegisterTypeError { expected: RegisterType::U32, actual: value.ty() })
        }
    }
}

impl TryFromSpecImpl<RegisterValue> for u32 {
    open spec fn obeys_try_from_spec() -> bool {
        true
    }

    open spec fn try_from_spec(v: RegisterValue) -> Result<u32, RegisterTypeError> {
        if let RegisterValue::U32(x) = v {
            Ok(x)
        } else {
            Err(RegisterTypeError { expected: RegisterType::U32, actual: v.spec_ty() })
        }
    }
}

impl From<u64> for RegisterValue {
    fn from(value: u64) -> (r: RegisterValue) {
        RegisterValue::U64(value)
    }
}

impl FromSpecImpl<u64> for RegisterValue {
    open spec fn obeys_from_spec() -> bool {
        true
    }

    open spec fn from_spec(v: u64) -> RegisterValue {
        RegisterValue::U64(v)
    }
}

impl TryFrom<RegisterValue> for u64 {
    type Error = RegisterTypeError;

    fn try_from(value: RegisterValue) -> (r: Result<u64, RegisterTypeError>) {
        if let RegisterValue::U64(x) = value {
            Ok(x)
        } else {
            Err(RegisterTypeError { expected: RegisterType::U64, actual: value.ty() })
        }
    }
}

impl TryFromSpecImpl<RegisterValue> for u64 {
    open spec fn obeys_try_from_spec() -> bool {
        true
    }

    open spec fn try_from_spec(v: RegisterValue) -> Result<u64, RegisterTypeError> {
        if let RegisterValue::U64(x) = v {
            Ok(x)
        } else {
            Err(RegisterTypeError { expected: RegisterType::U64, actual: v.spec_ty() })
        }
    }
}

impl From<f80> for RegisterValue {
    fn from(value: f80) -> (r: RegisterValue) {
        RegisterValue::F80(value)
    }
}

impl FromSpecImpl<f80> for RegisterValue {
    open spec fn obeys_from_spec() -> bool {
        true
    }

    open spec fn from_spec(v: f80) -> RegisterValue {
        RegisterValue::F80(v)
    }
}

impl TryFrom<RegisterValue> for f80 {
    type Error = RegisterTypeError;

    fn try_from(value: RegisterValue) -> (r: Result<f80, RegisterTypeError>) {
        if let RegisterValue::F80(x) = value {
            Ok(x)
        } else {
            Err(RegisterTypeError { expected: RegisterType::F80, actual: value.ty() })
        }
    }
}

impl TryFromSpecImpl<RegisterValue> for f80 {
    open spec fn obeys_try_from_spec() -> bool {
        true
    }

    open spec fn try_from_spec(v: RegisterValue) -> Result<f80, RegisterTypeError> {
        if let RegisterValue::F80(x) = v {
            Ok(x)
        } else {
            Err(RegisterTypeError { expected: RegisterType::F80, actual: v.spec_ty() })
        }
    }
}

impl From<u8x8> for RegisterValue {
    fn from(value: u8x8) -> (r: RegisterValue) {
        RegisterValue::U8x8(value)
    }
}

impl FromSpecImpl<u8x8> for RegisterValue {
    open spec fn obeys_from_spec() -> bool {
        true
    }

    open spec fn from_spec(v: u8x8) -> RegisterValue {
        RegisterValue::U8x8(v)
    }
}

impl TryFrom<RegisterValue> for u8x8 {
    type Error = RegisterTypeError;

    fn try_from(value: RegisterValue) -> (r: Result<u8x8, RegisterTypeError>) {
        if let RegisterValue::U8x8(x) = value {
            Ok(x)
        } else {
            Err(RegisterTypeError { expected: RegisterType::U8x8, actual: value.ty() })
        }
    }
}

impl TryFromSpecImpl<RegisterValue> for u8x8 {
    open spec fn obeys_try_from_spec() -> bool {
        true
    }

    open spec fn try_from_spec(v: RegisterValue) -> Result<u8x8, RegisterTypeError> {
        if let RegisterValue::U8x8(x) = v {
            Ok(x)
        } else {
            Err(RegisterTypeError { expected: RegisterType::U8x8, actual: v.spec_ty() })
        }
    }
}

impl From<u8x16> for RegisterValue {
    fn from(value: u8x16) -> (r: RegisterValue) {
        RegisterValue::U8x16(value)
    }
}

impl FromSpecImpl<u8x16> for RegisterValue {
    open spec fn obeys_from_spec() -> bool {
        true
    }

    open spec fn from_spec(v: u8x16) -> RegisterValue {
        RegisterValue::U8x16(v)
    }
}

impl TryFrom<RegisterValue> for u8x16 {
    type Error = RegisterTypeError;

    fn try_from(value: RegisterValue) -> (r: Result<u8x16, RegisterTypeError>) {
        if let RegisterValue::U8x16(x) = value {
            Ok(x)
        } else {
            Err(RegisterTypeError { expected: RegisterType::U8x16, actual: value.ty() })
        }
    }
}

impl TryFromSpecImpl<RegisterValue> for u8x16 {
    open spec fn obeys_try_from_spec() -> bool {
        true
    }

    open spec fn try_from_spec(v: RegisterValue) -> Result<u8x16, RegisterTypeError> {
        if let RegisterValue::U8x16(x) = v {
            Ok(x)
        } else {
            Err(RegisterTypeError { expected: RegisterType::U8x16, actual: v.spec_ty() })
        }
    }
}

impl From<i8> for RegisterValue {
    fn from(value: i8) -> (r: RegisterValue) {
        RegisterValue::from(value as u8)
    }
}

impl FromSpecImpl<i8> for RegisterValue {
    open spec fn obeys_from_spec() -> bool {
        true
    }

    open spec fn from_spec(v: i8) -> RegisterValue {
        RegisterValue::U8(v as u8)
    }
}

impl TryFrom<RegisterValue> for i8 {
    type Error = RegisterTypeError;

    fn try_from(value: RegisterValue) -> (r: Result<i8, RegisterTypeError>) {
        match <u8>::try_from(value) {
            Ok(x) => Ok(x as i8),
            Err(e) => Err(e),
        }
    }
}

impl TryFromSpecImpl<RegisterValue> for i8 {
    open spec fn obeys_try_from_spec() -> bool {
        true
    }

    open spec fn try_from_spec(v: RegisterValue) -> Result<i8, RegisterTypeError> {
        if let RegisterValue::U8(x) = v {
            Ok(x as i8)
        } else {
            Err(RegisterTypeError { expected: RegisterType::U8, actual: v.spec_ty() })
        }
    }
}

impl From<i16> for RegisterValue {
    fn from(value: i16) -> (r: RegisterValue) {
        RegisterValue::from(value as u16)
    }
}

impl FromSpecImpl<i16> for RegisterValue {
    open spec fn obeys_from_spec() -> bool {
        true
    }

    open spec fn from_spec(v: i16) -> RegisterValue {
        RegisterValue::U16(v as u16)
    }
}

impl TryFrom<RegisterValue> for i16 {
    type Error = RegisterTypeError;

    fn try_from(value: RegisterValue) -> (r: Result<i16, RegisterTypeError>) {
        match <u16>::try_from(value) {
            Ok(x) => Ok(x as i16),
            Err(e) => Err(e),
        }
    }
}

impl TryFromSpecImpl<RegisterValue> for i16 {
    open spec fn obeys_try_from_spec() -> bool {
        true
    }

    open spec fn try_from_spec(v: RegisterValue) -> Result<i16, RegisterTypeError> {
        if let RegisterValue::U16(x) = v {
            Ok(x as i16)
        } else {
            Err(RegisterTypeError { expected: RegisterType::U16, actual: v.spec_ty() })
        }
    }
}

impl From<i32> for RegisterValue {
    fn from(value: i32) -> (r: RegisterValue) {
        RegisterValue::from(value as u32)
    }
}

impl FromSpecImpl<i32> for RegisterValue {
    open spec fn obeys_from_spec() -> bool {
        true
    }

    open spec fn from_spec(v: i32) -> RegisterValue {
        RegisterValue::U32(v as u32)
    }
}

impl TryFrom<RegisterValue> for i32 {
    type Error = RegisterTypeError;

    fn try_from(value: RegisterValue) -> (r: Result<i32, RegisterTypeError>) {
        match <u32>::try_from(value) {
            Ok(x) => Ok(x as i32),
            Err(e) => Err(e),
        }
    }
}

impl TryFromSpecImpl<RegisterValue> for i32 {
    open spec fn obeys_try_from_spec() -> bool {
        true
    }

    open spec fn try_from_spec(v: RegisterValue) -> Result<i32, RegisterTypeError> {
        if let RegisterValue::U32(x) = v {
            Ok(x as i32)
        } else {
            Err(RegisterTypeError { expected: RegisterType::U32, actual: v.spec_ty() })
        }
    }
}

impl From<i64> for RegisterValue {
    fn from(value: i64) -> (r: RegisterValue) {
        RegisterValue::from(value as u64)
    }
}

impl FromSpecImpl<i64> for RegisterValue {
    open spec fn obeys_from_spec() -> bool {
        true
    }

    open spec fn from_spec(v: i64) -> RegisterValue {
        RegisterValue::U64(v as u64)
    }
}

impl TryFrom<RegisterValue> for i64 {
    type Error = RegisterTypeError;

    fn try_from(value: RegisterValue) -> (r: Result<i64, RegisterTypeError>) {
        match <u64>::try_from(value) {
            Ok(x) => Ok(x as i64),
            Err(e) => Err(e),
        }
    }
}

impl TryFromSpecImpl<RegisterValue> for i64 {
    open spec fn obeys_try_from_spec() -> bool {
        true
    }

    open spec fn try_from_spec(v: RegisterValue) -> Result<i64, RegisterTypeError> {
        if let RegisterValue::U64(x) = v {
            Ok(x as i64)
        } else {
            Err(RegisterTypeError { expected: RegisterType::U64, actual: v.spec_ty() })
        }
    }
}


/// A value converted into a register value and back is unchanged; the
/// conversion back refuses exactly the values of another type, naming both
/// types.
pub proof fn lemma_conversions_round_trip()
    ensures
        forall|x: u8|
            #[trigger] <u8 as TryFromSpec<RegisterValue>>::try_from_spec(
                <RegisterValue as FromSpec<u8>>::from_spec(x),
            ) == Ok::<u8, RegisterTypeError>(x),
        forall|v: RegisterValue|
            #[trigger] <u8 as TryFromSpec<RegisterValue>>::try_from_spec(v) is Err <==> v.spec_ty()
                != RegisterType::U8,
        forall|v: RegisterValue|
            #[trigger] <u8 as TryFromSpec<RegisterValue>>::try_from_spec(v) matches Err(e) ==> e
                == (RegisterTypeError { expected: RegisterType::U8, actual: v.spec_ty() }),
        forall|x: u16|
            #[trigger] <u16 as TryFromSpec<RegisterValue>>::try_from_spec(
                <RegisterValue as FromSpec<u16>>::from_spec(x),
            ) == Ok::<u16, RegisterTypeError>(x),
        forall|v: RegisterValue|
            #[trigger] <u16 as TryFromSpec<RegisterValue>>::try_from_spec(v) is Err <==> v.spec_ty()
                != RegisterType::U16,
        forall|v: RegisterValue|
            #[trigger] <u16 as TryFromSpec<RegisterValue>>::try_from_spec(v) matches Err(e) ==> e
                == (RegisterTypeError { expected: RegisterType::U16, actual: v.spec_ty() }),
        forall|x: u32|
            #[trigger] <u32 as TryFromSpec<RegisterValue>>::try_from_spec(
                <RegisterValue as FromSpec<u32>>::from_spec(x),
            ) == Ok::<u32, RegisterTypeError>(x),
        forall|v: RegisterValue|
            #[trigger] <u32 as TryFromSpec<RegisterValue>>::try_from_spec(v) is Err <==> v.spec_ty()
                != RegisterType::U32,
        forall|v: RegisterValue|
            #[trigger] <u32 as TryFromSpec<RegisterValue>>::try_from_spec(v) matches Err(e) ==> e
                == (RegisterTypeError { expected: RegisterType::U32, actual: v.spec_ty() }),
        forall|x: u64|
            #[trigger] <u64 as TryFromSpec<RegisterValue>>::try_from_spec(
                <RegisterValue as FromSpec<u64>>::from_spec(x),
            ) == Ok::<u64, RegisterTypeError>(x),
        forall|v: RegisterValue|
            #[trigger] <u64 as TryFromSpec<RegisterValue>>::try_from_spec(v) is Err <==> v.spec_ty()
                != RegisterType::U64,
        forall|v: RegisterValue|
            #[trigger] <u64 as TryFromSpec<RegisterValue>>::try_from_spec(v) matches Err(e) ==> e
                == (RegisterTypeError { expected: RegisterType::U64, actual: v.spec_ty() }),
        forall|x: f80|
            #[trigger] <f80 as TryFromSpec<RegisterValue>>::try_from_spec(
                <RegisterValue as FromSpec<f80>>::from_spec(x),
            ) == Ok::<f80, RegisterTypeError>(x),
        forall|v: RegisterValue|
            #[trigger] <f80 as TryFromSpec<RegisterValue>>::try_from_spec(v) is Err <==> v.spec_ty()
                != RegisterType::F80,
        forall|v: RegisterValue|
            #[trigger] <f80 as TryFromSpec<RegisterValue>>::try_from_spec(v) matches Err(e) ==> e
                == (RegisterTypeError { expected: RegisterType::F80, actual: v.spec_ty() }),
        forall|x: u8x8|
            #[trigger] <u8x8 as TryFromSpec<RegisterValue>>::try_from_spec(
                <RegisterValue as FromSpec<u8x8>>::from_spec(x),
            ) == Ok::<u8x8, RegisterTypeError>(x),
        forall|v: RegisterValue|
            #[trigger] <u8x8 as TryFromSpec<RegisterValue>>::try_from_spec(v) is Err <==> v.spec_ty()
                != RegisterType::U8x8,
        forall|v: RegisterValue|
            #[trigger] <u8x8 as TryFromSpec<RegisterValue>>::try_from_spec(v) matches Err(e) ==> e
                == (RegisterTypeError { expected: RegisterType::U8x8, actual: v.spec_ty() }),
        forall|x: u8x16|
            #[trigger] <u8x16 as TryFromSpec<RegisterValue>>::try_from_spec(
                <RegisterValue as FromSpec<u8x16>>::from_spec(x),
            ) == Ok::<u8x16, RegisterTypeError>(x),
        forall|v: RegisterValue|
            #[trigger] <u8x16 as TryFromSpec<RegisterValue>>::try_from_spec(v) is Err <==> v.spec_ty()
                != RegisterType::U8x16,
        forall|v: RegisterValue|
            #[trigger] <u8x16 as TryFromSpec<RegisterValue>>::try_from_spec(v) matches Err(e) ==> e
                == (RegisterTypeError { expected: RegisterType::U8x16, actual: v.spec_ty() }),
        forall|x: i8|
            #[trigger] <i8 as TryFromSpec<RegisterValue>>::try_from_spec(
                <RegisterValue as FromSpec<i8>>::from_spec(x),
            ) == Ok::<i8, RegisterTypeError>(x),
        forall|v: RegisterValue|
            #[trigger] <i8 as TryFromSpec<RegisterValue>>::try_from_spec(v) is Err <==> v.spec_ty()
                != RegisterType::U8,
        forall|v: RegisterValue|
            #[trigger] <i8 as TryFromSpec<RegisterValue>>::try_from_spec(v) matches Err(e) ==> e
                == (RegisterTypeError { expected: RegisterType::U8, actual: v.spec_ty() }),
        forall|x: i16|
            #[trigger] <i16 as TryFromSpec<RegisterValue>>::try_from_spec(
                <RegisterValue as FromSpec<i16>>::from_spec(x),
            ) == Ok::<i16, RegisterTypeError>(x),
        forall|v: RegisterValue|
            #[trigger] <i16 as TryFromSpec<RegisterValue>>::try_from_spec(v) is Err <==> v.spec_ty()
                != RegisterType::U16,
        forall|v: RegisterValue|
            #[trigger] <i16 as TryFromSpec<RegisterValue>>::try_from_spec(v) matches Err(e) ==> e
                == (RegisterTypeError { expected: RegisterType::U16, actual: v.spec_ty() }),
        forall|x: i32|
            #[trigger] <i32 as TryFromSpec<RegisterValue>>::try_from_spec(
                <RegisterValue as FromSpec<i32>>::from_spec(x),
            ) == Ok::<i32, RegisterTypeError>(x),
        forall|v: RegisterValue|
            #[trigger] <i32 as TryFromSpec<RegisterValue>>::try_from_spec(v) is Err <==> v.spec_ty()
                != RegisterType::U32,
        forall|v: RegisterValue|
            #[trigger] <i32 as TryFromSpec<RegisterValue>>::try_from_spec(v) matches Err(e) ==> e
                == (RegisterTypeError { expected: RegisterType::U32, actual: v.spec_ty() }),
        forall|x: i64|
            #[trigger] <i64 as TryFromSpec<RegisterValue>>::try_from_spec(
                <RegisterValue as FromSpec<i64>>::from_spec(x),
            ) == Ok::<i64, RegisterTypeError>(x),
        forall|v: RegisterValue|
            #[trigger] <i64 as TryFromSpec<RegisterValue>>::try_from_spec(v) is Err <==> v.spec_ty()
                != RegisterType::U64,
        forall|v: RegisterValue|
            #[trigger] <i64 as TryFromSpec<RegisterValue>>::try_from_spec(v) matches Err(e) ==> e
                == (RegisterTypeError { expected: RegisterType::U64, actual: v.spec_ty() }),
{
    assert forall|x: i8| #[trigger] ((x as u8) as i8) == x by {
        assert(((x as u8) as i8) == x) by (bit_vector);
    }
    assert forall|x: i16| #[trigger] ((x as u16) as i16) == x by {
        assert(((x as u16) as i16) == x) by (bit_vector);
    }
    assert forall|x: i32| #[trigger] ((x as u32) as i32) == x by {
        assert(((x as u32) as i32) == x) by (bit_vector);
    }
    assert forall|x: i64| #[trigger] ((x as u64) as i64) == x by {
        assert(((x as u64) as i64) == x) by (bit_vector);
    }
}

} // verus!
