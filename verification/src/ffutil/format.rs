//! Whether a container format can store a codec.
use vstd::prelude::*;

verus! {

/// Standards compliance level of a codec in a container.
#[derive(Debug, PartialEq, Eq, Clone, Copy, Structural)]
pub enum Compliance {
    /// Strictly conform to an older more strict version of the standard or reference software.
    VeryStrict,
    /// Strictly conform to all the things in the standard no matter what consequences.
    Strict,
    /// Normal compliance level.
    Normal,
    /// Allow unofficial extensions.
    Unofficial,
    /// Allow nonstandardized experimental things.
    Experimental,
}

/// What the framework's answer to "can this format store this codec" means:
/// its code for "not implemented, patches welcome" and zero mean no, another
/// negative number is an error, a positive number means yes.
pub open spec fn codec_support_of(answer: i32, patch_welcome: i32) -> Result<bool, i32> {
    if answer == patch_welcome {
        Ok(false)
    } else if answer < 0 {
        Err(answer)
    } else {
        Ok(answer > 0)
    }
}

/// Reads the framework's answer to "can this format store this codec".
pub fn codec_support(answer: i32, patch_welcome: i32) -> (r: Result<bool, i32>)
    ensures
        r == codec_support_of(answer, patch_welcome),
{
    if answer == patch_welcome {
        Ok(false)
    } else if answer < 0 {
        Err(answer)
    } else {
        Ok(answer > 0)
    }
}

} // verus!
