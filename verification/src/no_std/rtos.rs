use vstd::prelude::*;

verus! {

/// What the status code of an RTOS call means: 0 is success, any other value is the
/// error the call failed with.
pub fn rtos_status(code: i32) -> (r: Result<(), i32>)
    ensures
        code == 0 ==> r is Ok,
        code != 0 ==> r == Err::<(), i32>(code),
{
    if code == 0 {
        Ok(())
    } else {
        Err(code)
    }
}

} // verus!
