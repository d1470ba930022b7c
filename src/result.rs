use vstd::prelude::*;

verus! {

/// Outcome of an operation that may fail: `Ok(())`, or `Err` with a short
/// description of why it failed.
pub type OpResult = Result<(), String>;

/// The successful outcome.
pub fn ok() -> (r: OpResult)
    ensures
        r is Ok,
{
    Ok(())
}

/// A failed outcome carrying the description `err`.
pub fn error(err: &str) -> (r: OpResult)
    ensures
        r matches Err(m) && m@ == err@,
{
    Err(err.to_owned())
}

/// Whether the outcome is a success.
pub fn is_true(result: OpResult) -> (r: bool)
    ensures
        r == result is Ok,
{
    result.is_ok()
}

} // verus!
