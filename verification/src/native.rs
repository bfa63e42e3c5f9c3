//! Decisions on the raw values the native library hands back.
//!
//! Each function here turns one kind of raw outcome — a status code, a
//! tri-state flag, a signed count, a possibly absent string — into the
//! typed result the session's callers see. A driver that owns the native
//! handle makes the raw call and passes what came back, together with the
//! message read from the native diagnostic channel, so the translation is
//! checked for every value the call could return.

use vstd::prelude::*;

use crate::error::Error;

verus! {

/// Turns a status code into a typed result: zero is success, any other
/// code is a native failure carrying the diagnostic message.
pub fn status_result(status: i32, message: String) -> (r: Result<(), Error>)
    ensures
        status == 0 ==> r == Ok::<(), Error>(()),
        status != 0 ==> r == Err::<(), Error>(Error::NativeError(message)),
{
    if status == 0 {
        Ok(())
    } else {
        Err(Error::NativeError(message))
    }
}

/// Turns a tri-state flag into a boolean: one is true, zero is false, and
/// any other value is a native failure.
pub fn tristate_result(value: i32, message: String) -> (r: Result<bool, Error>)
    ensures
        value == 1 ==> r == Ok::<bool, Error>(true),
        value == 0 ==> r == Ok::<bool, Error>(false),
        !(value == 0 || value == 1) ==> r == Err::<bool, Error>(Error::NativeError(message)),
{
    if value == 1 {
        Ok(true)
    } else if value == 0 {
        Ok(false)
    } else {
        Err(Error::NativeError(message))
    }
}

/// Turns the signed count a display call returns into the narrower count
/// this library reports: a negative count is a native failure, and one
/// beyond the narrower range cannot be represented.
pub fn count_result(count: i32, message: String) -> (r: Result<u16, Error>)
    ensures
        count < 0 ==> r == Err::<u16, Error>(Error::NativeError(message)),
        0 <= count <= u16::MAX ==> r == Ok::<u16, Error>(count as u16),
        count > u16::MAX ==> r == Err::<u16, Error>(Error::NumericConversionError),
{
    if count < 0 {
        Err(Error::NativeError(message))
    } else if count > 65535 {
        Err(Error::NumericConversionError)
    } else {
        Ok(count as u16)
    }
}

/// Turns the signed line count the native library reports into a typed
/// result: a negative count is a native failure.
pub fn line_count_result(count: i32, message: String) -> (r: Result<i32, Error>)
    ensures
        count < 0 ==> r == Err::<i32, Error>(Error::NativeError(message)),
        count >= 0 ==> r == Ok::<i32, Error>(count),
{
    if count < 0 {
        Err(Error::NativeError(message))
    } else {
        Ok(count)
    }
}

/// Turns a possibly absent native string into a typed result: an absent
/// one is reported as a null pointer.
pub fn string_from_native(value: Option<String>) -> (r: Result<String, Error>)
    ensures
        value matches Some(s) ==> r == Ok::<String, Error>(s),
        value is None ==> r == Err::<String, Error>(Error::NullPointer),
{
    match value {
        Some(s) => Ok(s),
        None => Err(Error::NullPointer),
    }
}

/// The raw bar-length argument for an optional percentage: the value
/// itself when one is given, and the sentinel for the default behaviour
/// when none is.
pub fn bar_value_native(percentage: Option<u16>) -> (r: i32)
    ensures
        percentage matches Some(v) ==> r == v,
        percentage is None ==> r == -1,
{
    match percentage {
        Some(v) => v as i32,
        None => -1,
    }
}

/// Scales one 16-bit colour channel down to the 8-bit range. The quotient
/// of a 16-bit value by 256 is below 256, so the narrowing never fails.
pub fn scale_channel(channel: u16) -> (r: u8)
    ensures
        r == channel / 256,
{
    (channel / 256) as u8
}

/// Scales a triple of 16-bit colour channels down to the 8-bit triple this
/// library reports for a queried colour.
pub fn scaled_color(red: u16, green: u16, blue: u16) -> (r: (u8, u8, u8))
    ensures
        r.0 == red / 256,
        r.1 == green / 256,
        r.2 == blue / 256,
{
    (scale_channel(red), scale_channel(green), scale_channel(blue))
}

} // verus!
