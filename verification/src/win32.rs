//! Result codes of the system's interfaces.

use vstd::prelude::*;

verus! {

/// Result code with which a system call reports success.
pub const ERROR_SUCCESS: u32 = 0;

/// The failure code that stands for a system error code: a code that is
/// zero or has its top bit set is taken over bit for bit, any other keeps
/// its low sixteen bits and is marked as a failure of the system facility.
pub open spec fn failure_code_of(error: u32) -> int {
    if error == 0 {
        0
    } else if error >= 0x8000_0000 {
        error - 0x1_0000_0000
    } else {
        (error % 0x1_0000) + 0x8007_0000 - 0x1_0000_0000
    }
}

/// Calls `windows_core::HRESULT::from_win32` and returns the number inside
/// the result. The contract restates that function: an argument that is not
/// positive as a signed number is reinterpreted as signed, any other is cut
/// to its low sixteen bits and combined with `0x8007_0000`.
#[verifier::external_body]
fn hresult_from_win32(error: u32) -> (code: i32)
    ensures
        code == failure_code_of(error),
{
    windows_core::HRESULT::from_win32(error).0
}

/// A system call failed with the error code `error`; `hresult` is the
/// failure code under which the failure is reported.
#[derive(Clone, Copy, Debug, PartialEq, Eq, Structural)]
pub struct Win32Failure {
    pub error: u32,
    pub hresult: i32,
}

/// Turns the result code of a system call into a result: success for
/// [`ERROR_SUCCESS`], otherwise the failure with its failure code.
pub fn check_win32(error: u32) -> (checked: Result<(), Win32Failure>)
    ensures
        error == ERROR_SUCCESS ==> checked.is_ok(),
        error != ERROR_SUCCESS ==> checked == Err::<(), Win32Failure>(
            Win32Failure { error, hresult: failure_code_of(error) as i32 },
        ),
        checked matches Err(failure) ==> failure.hresult < 0,
{
    if error == ERROR_SUCCESS {
        Ok(())
    } else {
        Err(Win32Failure { error, hresult: hresult_from_win32(error) })
    }
}

} // verus!
