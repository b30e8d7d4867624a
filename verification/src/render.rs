//! Human-readable messages for failure kinds.
//!
//! A kind minted by the binding has a fixed text of its own. A kind mirrored from
//! the driver is worded by the driver: its message table is asked for the status
//! code that the kind carries, and the answer is copied out. Asking the driver is
//! the caller's part; this module decides what to ask and what to make of the
//! reply.

use vstd::prelude::*;
use crate::error::{CudaError, SUCCESS_CODE};
use crate::status::{ToResult, status_outcome};

verus! {

/// Signals that no message could be produced because the driver's own lookup
/// failed.
#[derive(Clone, Copy, Debug, PartialEq, Eq, Hash, Structural)]
pub struct RenderError;

/// What rendering a kind needs next.
#[derive(Debug, PartialEq, Eq)]
pub enum RenderStep {
    /// The message is known without the driver.
    Done(String),
    /// The driver's message table has to be asked for this status code; the reply
    /// goes to [`finish_render`].
    AskDriver(u32),
}

/// The text of a kind whose message the binding owns; `None` for a kind that the
/// driver words.
pub open spec fn fixed_message(kind: CudaError) -> Option<Seq<char>> {
    match kind {
        CudaError::InvalidMemoryAllocation => Some("Invalid memory allocation"@),
        _ => None,
    }
}

/// What a reply of the driver's message lookup renders to: the message when the
/// lookup succeeded, a rendering failure otherwise.
pub open spec fn lookup_outcome(lookup_status: u32, message: Seq<char>) -> Result<
    Seq<char>,
    RenderError,
> {
    if status_outcome(lookup_status) is Ok {
        Ok(message)
    } else {
        Err(RenderError)
    }
}

/// The message of `kind`, given what the driver's lookup replies for the status
/// code of `kind`. The reply plays no part for a kind with a fixed text.
pub open spec fn rendering(kind: CudaError, lookup_status: u32, message: Seq<char>) -> Result<
    Seq<char>,
    RenderError,
> {
    match fixed_message(kind) {
        Some(text) => Ok(text),
        None => lookup_outcome(lookup_status, message),
    }
}

/// First half of rendering: hands out the fixed text of a kind minted by the
/// binding, or the status code to look up for a kind mirrored from the driver.
pub fn start_render(kind: CudaError) -> (step: RenderStep)
    ensures
        match step {
            RenderStep::Done(text) => fixed_message(kind) == Some(text@) && text@.len() > 0,
            RenderStep::AskDriver(code) => fixed_message(kind) is None && code == kind.spec_code(),
        },
        step is Done <==> kind.spec_is_binding_origin(),
{
    match kind {
        CudaError::InvalidMemoryAllocation => {
            proof {
                reveal_strlit("Invalid memory allocation");
            }
            RenderStep::Done("Invalid memory allocation".to_owned())
        },
        _ => RenderStep::AskDriver(kind.code()),
    }
}

/// Second half of rendering: takes the status that the driver's lookup returned
/// and the message it pointed to, and copies the message out if the lookup
/// succeeded. The lookup's status is converted like any other status of the
/// driver.
pub fn finish_render(lookup_status: u32, message: &str) -> (r: Result<String, RenderError>)
    ensures
        match r {
            Ok(text) => lookup_outcome(lookup_status, message@) == Ok::<Seq<char>, RenderError>(
                text@,
            ),
            Err(e) => lookup_outcome(lookup_status, message@) == Err::<Seq<char>, RenderError>(e),
        },
        r is Ok <==> lookup_status == SUCCESS_CODE,
{
    match lookup_status.to_result() {
        Ok(()) => Ok(message.to_owned()),
        Err(_) => Err(RenderError),
    }
}

} // verus!
