//! What the operating system answered to a request, as a `Result`: nothing on
//! success, the error code of the calling thread on failure.

use vstd::prelude::*;

verus! {

/// The value of the calling thread's `errno`, as `errno::errno` reads it.
///
/// Nothing is claimed of the value: it is whatever the last failing call of
/// the thread has left there.
#[verifier::external_body]
fn last_errno() -> i32 {
    errno::errno().0
}

/// The error code that stands for a value of `errno`: the same number where
/// it is not negative, and the number as the machine holds it, read as
/// unsigned, where it is.
pub open spec fn spec_error_code(errno: i32) -> usize {
    errno as usize
}

/// Whether `code` is the error code of some value of `errno`.
pub open spec fn is_error_code(code: usize) -> bool {
    exists|errno: i32| code == #[trigger] spec_error_code(errno)
}

/// The error code that stands for a value of `errno`.
#[verifier::when_used_as_spec(spec_error_code)]
pub fn error_code(errno: i32) -> (code: usize)
    ensures
        code == spec_error_code(errno),
        errno >= 0 ==> code == errno,
{
    #[verifier::truncate]
    (errno as usize)
}

/// The error code of the last failure in the calling thread.
pub fn last_error() -> (code: usize)
    ensures
        is_error_code(code),
{
    error_code(last_errno())
}

/// The outcome of a request that the operating system answers with a status:
/// 0 says that it was carried out, any other status that it failed, and the
/// failure is reported with the error code that the system left for the
/// thread.
pub fn of_status(status: i32) -> (r: Result<(), usize>)
    ensures
        status == 0 ==> r == Ok::<(), usize>(()),
        status != 0 ==> r is Err,
        r matches Err(code) ==> is_error_code(code),
{
    if status == 0 {
        Ok(())
    } else {
        Err(last_error())
    }
}

} // verus!
