//! The line-controller adapter: the operations the host GPIO subsystem
//! invokes against a shared device context.

use vstd::prelude::*;

use crate::context::DeviceData;
use crate::errors::Error;
use crate::regs::{bit_is_set, le64_at, GPIO_DIR};

verus! {

/// The fixed number of lines the controller declares at registration time.
pub const N_GPIOS: u16 = 32;

/// Whether a line is driven by the device (`Out`) or read as external input
/// (`In`).
#[derive(Clone, Copy, Debug, PartialEq, Eq, Structural)]
pub enum LineDirection {
    In,
    Out,
}

/// The direction bitmask register as seen through the context's register
/// window; zero when the context carries no resources.
pub open spec fn direction_register_value(data: DeviceData) -> u64 {
    match data.spec_resources() {
        Some(res) => le64_at(res.base.mem(), GPIO_DIR as int),
        None => 0,
    }
}

/// Whether bit `n` of the context's direction register is set, that is,
/// whether line `n` is configured as an output.
pub open spec fn line_is_out(data: DeviceData, n: u32) -> bool
    recommends
        n < 64,
{
    bit_is_set(direction_register_value(data), n)
}

/// A word with only bit `n` set: the mask selecting line `n` in a bitmask
/// register.
pub fn line_mask(n: u32) -> (r: u64)
    requires
        n < 64,
    ensures
        r == (1u64 << n),
{
    1u64 << n
}

/// Queries a line's direction from the direction bitmask register: `Out`
/// exactly when the line's bit is set. Fails with a no-such-device error if
/// the context's resources were never attached (defensive; does not occur on
/// a live device).
pub fn get_direction(data: &DeviceData, offset: u32) -> (r: Result<LineDirection, Error>)
    requires
        data.wf(),
        offset < N_GPIOS,
    ensures
        match data.spec_resources() {
            None => r == Err::<LineDirection, Error>(Error::NoSuchDevice),
            Some(_) => r == Ok::<LineDirection, Error>(
                if line_is_out(*data, offset) {
                    LineDirection::Out
                } else {
                    LineDirection::In
                },
            ),
        },
{
    let res = match data.resources() {
        Some(res) => res,
        None => {
            return Err(Error::NoSuchDevice);
        },
    };
    let v = match res.base.read64(GPIO_DIR) {
        Ok(v) => v,
        Err(e) => {
            return Err(e);
        },
    };
    if v & line_mask(offset) != 0 {
        Ok(LineDirection::Out)
    } else {
        Ok(LineDirection::In)
    }
}

/// Configures a line as an input. Register-level direction latching is
/// hardware-specific scaffolding in this driver: the call reports success
/// and leaves the device untouched. A full controller clears bit `line` of
/// the direction register here.
pub fn direction_input(_data: &DeviceData, _line: u32) -> (r: Result<(), Error>)
    requires
        _line < N_GPIOS,
    ensures
        r == Ok::<(), Error>(()),
{
    Ok(())
}

/// Configures a line as an output. The call reports success and leaves the
/// device untouched. A full controller sets bit `line` of the direction
/// register and drives `value` onto the line before, or atomically with,
/// the direction change, so the line never glitches.
pub fn direction_output(_data: &DeviceData, _line: u32, _value: bool) -> (r: Result<(), Error>)
    requires
        _line < N_GPIOS,
    ensures
        r == Ok::<(), Error>(()),
{
    Ok(())
}

/// Reads a line's level. The level register is hardware-specific scaffolding
/// in this driver: the call always reports a high line. A full controller
/// reads bit `line` of the level register here.
pub fn get(_data: &DeviceData, _line: u32) -> (r: Result<bool, Error>)
    requires
        _line < N_GPIOS,
    ensures
        r == Ok::<bool, Error>(true),
{
    Ok(true)
}

/// Drives a line's level. The call leaves the device untouched. A full
/// controller writes bit `line` of the level register here, which is only
/// meaningful while the line's direction is `Out`.
pub fn set(_data: &DeviceData, _line: u32, _value: bool)
    requires
        _line < N_GPIOS,
{
}

} // verus!
