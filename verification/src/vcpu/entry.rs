//! Around the call that enters the guest.
//!
//! Entering the guest is one blocking call into the kernel. Before it the state
//! that goes in is written to the control page, and after it the state that came
//! out is read from there.

use crate::error::Error;
use crate::sys;
use crate::sys::run::RUN_HEAD_SIZE;
use crate::vcpu::run::{recognized, Run};
use vstd::prelude::*;

verus! {

/// The result of an operation on a virtual CPU, given what the kernel answered:
/// `raw` is the kernel's number, or nothing where the call itself failed. A
/// number below zero and a failed call are a `CoreOperation` error.
pub fn chain_then(raw: Option<i32>) -> (result: Result<i32, Error>)
    ensures
        result == match raw {
            Some(value) if value >= 0 => Ok::<i32, Error>(value),
            _ => Err(Error::CoreOperation),
        },
{
    match raw {
        Some(value) => {
            if value >= 0 {
                Ok(value)
            } else {
                Err(Error::CoreOperation)
            }
        },
        None => Err(Error::CoreOperation),
    }
}

/// Whether `page` can be the control page of a virtual CPU: it is there, and it
/// has room for the head.
pub open spec fn mapped(page: Option<Seq<u8>>) -> bool {
    match page {
        Some(bytes) => bytes.len() >= RUN_HEAD_SIZE,
        None => false,
    }
}

/// Writes `run` into the control page, ready for the guest to be entered.
///
/// Fails with `CoreUninitialized`, and writes nothing, where the virtual CPU has
/// no control page yet, or one that is too short to be one.
pub fn enter(page: Option<&mut [u8]>, run: Run) -> (ready: Result<(), Error>)
    ensures
        match page {
            Some(bytes) => {
                &&& final(bytes)@.len() == bytes@.len()
                &&& if bytes@.len() >= RUN_HEAD_SIZE {
                    &&& ready is Ok
                    &&& exists|head: sys::run::Run|
                        run.written_to(head) && final(bytes)@ == head.written_over(bytes@)
                } else {
                    &&& ready == Err::<(), Error>(Error::CoreUninitialized)
                    &&& final(bytes)@ == bytes@
                }
            },
            None => ready == Err::<(), Error>(Error::CoreUninitialized),
        },
{
    match page {
        Some(bytes) => {
            if bytes.len() < RUN_HEAD_SIZE {
                Err(Error::CoreUninitialized)
            } else {
                let head = run.into();
                head.store(bytes);
                Ok(())
            }
        },
        None => Err(Error::CoreUninitialized),
    }
}

/// Reads from the control page what the guest left there.
///
/// `outcome` is what the call that entered the guest returned, or nothing where
/// the call failed. A failed call is a `CoreOperation` error, a page that is too
/// short to be a control page is a `CoreUninitialized` error, and an exit reason
/// that names no variant of `Exit` is an `IllegalExitReason` error that carries
/// the reason. In every other case the state is the one that stands in the page.
pub fn leave(page: &[u8], outcome: Option<i32>) -> (left: Result<Run, Error>)
    ensures
        match left {
            Ok(run) => {
                &&& outcome is Some
                &&& page@.len() >= RUN_HEAD_SIZE
                &&& exists|head: sys::run::Run| head.read_from(page@) && run.read_from(head)
            },
            Err(error) => {
                if outcome is None {
                    error == Error::CoreOperation
                } else if page@.len() < RUN_HEAD_SIZE {
                    error == Error::CoreUninitialized
                } else {
                    let reason = crate::bytes::stored_u32(page@, 8);
                    !recognized(reason) && error == Error::IllegalExitReason(reason)
                }
            },
        },
{
    if outcome.is_none() {
        return Err(Error::CoreOperation);
    }
    if page.len() < RUN_HEAD_SIZE {
        return Err(Error::CoreUninitialized);
    }
    let head = sys::run::Run::load(page);
    Run::from(head)
}

/// What is written before the guest is entered is what is read afterwards, as
/// long as nothing touches the page in between: if `enter` has written `run` into
/// a page, then the only state that `leave` can read from that page is `run`.
pub proof fn lemma_enter_then_leave(
    run: Run,
    written: sys::run::Run,
    page: Seq<u8>,
    found: sys::run::Run,
    back: Run,
)
    requires
        page.len() >= RUN_HEAD_SIZE,
        run.written_to(written),
        found.read_from(written.written_over(page)),
        back.read_from(found),
    ensures
        recognized(found.exit_reason),
        back == run,
{
    written.lemma_round_trip(page);
    assert(found.exit.raw@ == written.exit.raw@);
    run.exit.lemma_round_trip();
    back.exit.lemma_read_from_unique(run.exit, found.exit_reason, found.exit.raw@);
}

} // verus!
