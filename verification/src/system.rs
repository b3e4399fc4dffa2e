//! The hypervisor itself: its version and what it tells about the host.

use crate::error::Error;
use crate::sys::structs::MsrList;
use crate::sys::KVM_API_VERSION;
use vstd::prelude::*;

verus! {

/// The API version that the kernel reported, given what the kernel answered:
/// `raw` is the kernel's number, or nothing where the call itself failed, which
/// is a `SystemOperation` error.
pub fn api_version(raw: Option<i32>) -> (version: Result<i32, Error>)
    ensures
        version == match raw {
            Some(value) => Ok::<i32, Error>(value),
            None => Err(Error::SystemOperation),
        },
{
    match raw {
        Some(value) => Ok(value),
        None => Err(Error::SystemOperation),
    }
}

/// Whether this library can work with a kernel that reports API version
/// `version`: it can with the one stable version and with no other.
pub fn supports(version: i32) -> (supported: bool)
    ensures
        supported == (version == KVM_API_VERSION),
{
    version == KVM_API_VERSION
}

/// The indices of the model-specific registers that the kernel supports, given
/// what the kernel answered to the question and the list that it filled in.
///
/// The answer is a `SystemOperation` error unless the call succeeded with the
/// number zero and the list is as long as it says; otherwise the indices are the
/// first `nmsrs` entries of the list.
pub fn msr_indexes(raw: Option<i32>, list: &MsrList) -> (indexes: Result<Vec<u32>, Error>)
    ensures
        match indexes {
            Ok(found) => raw == Some(0i32) && list.nmsrs <= list.indicies@.len() && found@
                == list.indicies@.subrange(0, list.nmsrs as int),
            Err(error) => !(raw == Some(0i32) && list.nmsrs <= list.indicies@.len()) && error
                == Error::SystemOperation,
        },
{
    match raw {
        Some(value) => {
            if value != 0 {
                return Err(Error::SystemOperation);
            }
        },
        None => {
            return Err(Error::SystemOperation);
        },
    }
    let n: usize = list.nmsrs as usize;
    if n > list.indicies.len() {
        return Err(Error::SystemOperation);
    }
    let mut found: Vec<u32> = Vec::with_capacity(n);
    let mut i: usize = 0;
    while i < n
        invariant
            n == list.nmsrs,
            n <= list.indicies@.len(),
            i <= n,
            found@ == list.indicies@.subrange(0, i as int),
        decreases n - i,
    {
        found.push(list.indicies[i]);
        assert(found@ =~= list.indicies@.subrange(0, i + 1));
        i += 1;
    }
    Ok(found)
}

} // verus!
