//! Codes and options of protected confirmation, in the form of the
//! service and in the form of the compatibility layer below it.

use vstd::prelude::*;

verus! {

/// Codes of the compatibility layer.
pub const APC_COMPAT_ERROR_OK: u32 = 0;

pub const APC_COMPAT_ERROR_CANCELLED: u32 = 1;

pub const APC_COMPAT_ERROR_ABORTED: u32 = 2;

pub const APC_COMPAT_ERROR_OPERATION_PENDING: u32 = 3;

pub const APC_COMPAT_ERROR_IGNORED: u32 = 4;

pub const APC_COMPAT_ERROR_SYSTEM_ERROR: u32 = 5;

/// The flag of the service that asks for inverted colours.
pub const FLAG_UI_OPTION_INVERTED: i32 = 1;

/// The flag of the service that asks for a magnified display.
pub const FLAG_UI_OPTION_MAGNIFIED: i32 = 2;

/// Response codes of the service.
#[derive(Clone, Copy, Debug, PartialEq, Eq, Structural)]
pub enum ApcResponseCode {
    Okay,
    Cancelled,
    Aborted,
    OperationPending,
    Ignored,
    SystemError,
}

/// Options of the display, as the compatibility layer takes them.
#[derive(Clone, Copy, Debug, PartialEq, Eq, Structural)]
pub struct ApcCompatUiOptions {
    pub inverted: bool,
    pub magnified: bool,
}

} // verus!
