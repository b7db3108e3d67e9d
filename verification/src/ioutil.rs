//! General-purpose I/O helpers.
use vstd::prelude::*;

verus! {

#[verifier::external_type_specification]
#[verifier::external_body]
pub struct ExIoError(std::io::Error);

/// How often [`retry_if_interrupted`] tries again before it hands the
/// interruption to its caller.
pub const MAX_RETRIES: u64 = 0xFFFF_FFFF_FFFF_FFFF;

/// `std::io::Error::kind`, asked whether it is
/// `std::io::ErrorKind::Interrupted`. Nothing is claimed of the answer.
#[verifier::external_body]
fn is_interrupted(error: &std::io::Error) -> (r: bool) {
    error.kind() == std::io::ErrorKind::Interrupted
}

/// What follows an attempt: another one, or its result.
pub enum Attempt<O, E> {
    Retry,
    Done(Result<O, E>),
}

/// Decides what follows an attempt: another one after an error that was an
/// interruption, as long as retries are left, and else the result.
pub fn after_attempt<O, E>(result: Result<O, E>, interrupted: bool, retries_left: u64) -> (r:
    Attempt<O, E>)
    ensures
        r == if result is Err && interrupted && retries_left > 0 {
            Attempt::<O, E>::Retry
        } else {
            Attempt::Done(result)
        },
{
    match result {
        Err(e) => if interrupted && retries_left > 0 {
            Attempt::Retry
        } else {
            Attempt::Done(Err(e))
        },
        Ok(value) => Attempt::Done(Ok(value)),
    }
}

/// Retry function for as long as we are interrupted
///
/// Calls `f` until it returns something else than an error of the kind
/// `Interrupted`, and returns that. After [`MAX_RETRIES`] interruptions in a
/// row the interruption itself is returned. `f` has to be callable in every
/// state that it can be in, and what is returned is what one of its calls
/// returned.
pub fn retry_if_interrupted<F, O>(mut f: F) -> (r: Result<O, std::io::Error>) where
    F: FnMut() -> Result<O, std::io::Error>,

    requires
        forall|g: F| g.requires(()),
    ensures
        exists|g: F| g.ensures((), r),
{
    let mut retries_left: u64 = MAX_RETRIES;
    loop
        invariant
            forall|g: F| g.requires(()),
        decreases retries_left,
    {
        let ghost before = f;
        let result = f();
        assert(before.ensures((), result));
        let interrupted = match &result {
            Err(e) => is_interrupted(e),
            Ok(_) => false,
        };
        match after_attempt(result, interrupted, retries_left) {
            Attempt::Retry => {
                retries_left = retries_left - 1;
            },
            Attempt::Done(r) => {
                return r;
            },
        }
    }
}

} // verus!
