use vstd::prelude::*;

use crate::error::InglError;
use crate::state::Key;

verus! {

/// Fails with `AddressMismatch` unless the two identities are the same.
pub fn assert_pubkeys_exactitude(a: &Key, b: &Key) -> (r: Result<(), InglError>)
    ensures
        *a == *b ==> r == Ok::<(), InglError>(()),
        *a != *b ==> r == Err::<(), InglError>(InglError::AddressMismatch),
{
    if *a != *b {
        return Err(InglError::AddressMismatch);
    }
    Ok(())
}

} // verus!
