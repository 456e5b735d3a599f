//! What the replies of node requests mean.

use vstd::prelude::*;

use vstd::slice::{slice_subrange, slice_to_vec};

use crate::error::{check, is_code_error, MvsError, MvsResult};
use crate::text::{c_prefix, sdk_bytes_from_cstr_array, SdkText};
use crate::types::{EnumValue, FloatValue, IntValue};

verus! {

/// Reply of an integer node.
pub fn get_int_done(code: i32, value: IntValue) -> (r: MvsResult<IntValue>)
    ensures
        code == 0 ==> r == Ok::<IntValue, MvsError>(value),
        code != 0 ==> is_code_error(r, code),
{
    match check(code) {
        Ok(()) => Ok(value),
        Err(error) => Err(error),
    }
}

/// Reply of a floating-point node.
pub fn get_float_done(code: i32, value: FloatValue) -> (r: MvsResult<FloatValue>)
    ensures
        code == 0 ==> r == Ok::<FloatValue, MvsError>(value),
        code != 0 ==> is_code_error(r, code),
{
    match check(code) {
        Ok(()) => Ok(value),
        Err(error) => Err(error),
    }
}

/// What the SDK's number for a boolean means: anything but zero is true.
pub open spec fn bool_from_sdk(value: u8) -> bool {
    value != 0
}

/// The SDK's number for a boolean.
pub open spec fn bool_to_sdk_spec(value: bool) -> u8 {
    if value {
        1
    } else {
        0
    }
}

/// Reply of a boolean node.
pub fn get_bool_done(code: i32, value: u8) -> (r: MvsResult<bool>)
    ensures
        code == 0 ==> r == Ok::<bool, MvsError>(bool_from_sdk(value)),
        code != 0 ==> is_code_error(r, code),
{
    match check(code) {
        Ok(()) => Ok(value != 0),
        Err(error) => Err(error),
    }
}

/// Write a boolean as the SDK does.
pub fn bool_to_sdk(value: bool) -> (r: u8)
    ensures
        r == bool_to_sdk_spec(value),
{
    if value {
        1
    } else {
        0
    }
}

/// The supported values that an enumeration reply holds: as many as the SDK
/// declares, at most as many as its array has room for.
pub open spec fn supported_values(declared: u32, values: Seq<u32>) -> Seq<u32> {
    if declared <= values.len() {
        values.take(declared as int)
    } else {
        values
    }
}

/// Reply of an enumeration node.
pub fn get_enum_done(code: i32, current: u32, declared: u32, values: &[u32]) -> (r: MvsResult<
    EnumValue,
>)
    ensures
        code == 0 ==> (r matches Ok(value) && value.current == current && value.supported@
            == supported_values(declared, values@)),
        code != 0 ==> is_code_error(r, code),
{
    match check(code) {
        Ok(()) => {
            let len = if declared as usize <= values.len() {
                declared as usize
            } else {
                values.len()
            };
            let supported = slice_to_vec(slice_subrange(values, 0, len));
            assert(supported@ =~= supported_values(declared, values@));
            Ok(EnumValue { current, supported })
        },
        Err(error) => Err(error),
    }
}

/// Reply of a string node: the bytes of its field up to the first NUL.
pub fn get_string_done(code: i32, field: &[u8]) -> (r: MvsResult<SdkText>)
    ensures
        code == 0 ==> (r matches Ok(text) && text@ == c_prefix(field@)),
        code != 0 ==> is_code_error(r, code),
{
    match check(code) {
        Ok(()) => Ok(SdkText::from_sdk_bytes(sdk_bytes_from_cstr_array(field))),
        Err(error) => Err(error),
    }
}

/// An enumeration never lists more values than the SDK declared or than its
/// array holds, and it lists them in the array's order.
pub proof fn law_supported_values_are_a_bounded_prefix(declared: u32, values: Seq<u32>)
    ensures
        supported_values(declared, values).len() <= declared,
        supported_values(declared, values).len() <= values.len(),
        supported_values(declared, values).is_prefix_of(values),
{
}

/// What is written to a boolean node is what is read back from it.
pub proof fn law_booleans_round_trip(value: bool)
    ensures
        bool_from_sdk(bool_to_sdk_spec(value)) == value,
{
}

/// Only zero reads as false, and only zero and one are written.
pub proof fn law_only_zero_is_false(value: u8, written: bool)
    ensures
        bool_from_sdk(value) <==> value != 0,
        written ==> bool_to_sdk_spec(written) == 1,
        !written ==> bool_to_sdk_spec(written) == 0,
{
}

/// An enumeration lists as many values as the SDK declared and the array has,
/// each at its place.
pub proof fn law_every_declared_value_is_listed(declared: u32, values: Seq<u32>)
    ensures
        declared <= values.len() ==> supported_values(declared, values).len() == declared,
        declared > values.len() ==> supported_values(declared, values).len() == values.len(),
        forall|i: int|
            0 <= i < supported_values(declared, values).len() ==> supported_values(
                declared,
                values,
            )[i] == values[i],
{
}

} // verus!
