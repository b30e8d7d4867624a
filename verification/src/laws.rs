//! What holds of the kinds, of the conversion and of rendering as a whole.
//!
//! Each statement is a proof function over the spec functions that the contracts
//! of the executable functions use, so a caller can cite it for any value.

use vstd::prelude::*;
use crate::error::{CudaError, CudaResult, BINDING_CODE_MIN, DRIVER_CODE_MAX, SUCCESS_CODE};
use crate::render::{fixed_message, lookup_outcome, rendering, RenderError};
use crate::status::{documented_kind, drop_outcome, is_documented, kind_of_status, status_outcome};

verus! {

/// A kind is determined by its numeric identity: two kinds carry the same number
/// only if they are the same kind.
pub proof fn lemma_code_identifies_kind(a: CudaError, b: CudaError)
    ensures
        a.spec_code() == b.spec_code() <==> a == b,
{
}

/// The kinds minted by the binding and the kinds mirrored from the driver live in
/// disjoint numeric ranges, so none of the first shares its number with one of the
/// second. No kind carries the success status.
pub proof fn lemma_origins_are_disjoint(binding: CudaError, driver: CudaError)
    requires
        binding.spec_is_binding_origin(),
        driver.spec_is_driver_origin(),
    ensures
        binding.spec_code() != driver.spec_code(),
        binding.spec_code() >= BINDING_CODE_MIN,
        SUCCESS_CODE < driver.spec_code() <= DRIVER_CODE_MAX,
        DRIVER_CODE_MAX < BINDING_CODE_MIN,
{
}

/// Every status has exactly one outcome, and that outcome is success only for the
/// success status.
pub proof fn lemma_success_is_unique(code: u32)
    ensures
        status_outcome(code) is Ok <==> code == SUCCESS_CODE,
        status_outcome(code) is Ok || status_outcome(code) is Err,
{
}

/// The status code of a kind mirrored from the driver converts back to that very
/// kind.
pub proof fn lemma_documented_status_gives_its_kind(kind: CudaError)
    requires
        kind.spec_is_driver_origin(),
    ensures
        is_documented(kind.spec_code()),
        status_outcome(kind.spec_code()) == Err::<(), CudaError>(kind),
{
    // `kind` itself is the witness that its code is in the table.
    assert(kind.spec_is_driver_origin());
}

/// The table read status by status and the table read kind by kind are the same
/// table: a status has an entry exactly if some kind mirrored from the driver
/// carries it, and the entry is that kind.
pub proof fn lemma_table_lists_the_driver_kinds(code: u32)
    ensures
        documented_kind(code) is Some <==> is_documented(code),
        documented_kind(code) matches Some(kind) ==> kind.spec_is_driver_origin()
            && kind.spec_code() == code && kind_of_status(code) == kind,
{
    if let Some(kind) = documented_kind(code) {
        lemma_documented_status_gives_its_kind(kind);
    }
}

/// A failure status that is not in the driver's table collapses to the unknown
/// kind, and never to success.
pub proof fn lemma_undocumented_status_is_unknown(code: u32)
    requires
        code != SUCCESS_CODE,
        !is_documented(code),
    ensures
        status_outcome(code) == Err::<(), CudaError>(CudaError::UnknownError),
{
}

/// The conversion never yields a kind minted by the binding.
pub proof fn lemma_conversion_stays_in_driver_range(code: u32, kind: CudaError)
    requires
        status_outcome(code) == Err::<(), CudaError>(kind),
    ensures
        kind.spec_is_driver_origin(),
        kind.spec_code() <= DRIVER_CODE_MAX,
{
}

/// The kind that a status from the driver's table converts to carries that
/// status as its numeric identity.
pub proof fn lemma_kind_carries_its_status(code: u32, kind: CudaError)
    requires
        is_documented(code),
        status_outcome(code) == Err::<(), CudaError>(kind),
    ensures
        kind.spec_code() == code,
{
}

/// Conversion depends on the status alone: equal statuses have equal outcomes.
pub proof fn lemma_conversion_is_a_function(
    first: u32,
    second: u32,
    first_result: CudaResult<()>,
    second_result: CudaResult<()>,
)
    requires
        first == second,
        first_result == status_outcome(first),
        second_result == status_outcome(second),
    ensures
        first_result == second_result,
{
}

/// Rendering depends on the kind and on the driver's reply alone: the same kind
/// with the same reply renders to the same text.
pub proof fn lemma_rendering_is_a_function(
    kind: CudaError,
    lookup_status: u32,
    message: Seq<char>,
    first: Result<Seq<char>, RenderError>,
    second: Result<Seq<char>, RenderError>,
)
    requires
        first == rendering(kind, lookup_status, message),
        second == rendering(kind, lookup_status, message),
    ensures
        first == second,
{
}

/// Rendering a kind either fails or gives a text that is not empty, as long as the
/// driver's table holds no empty message. A kind minted by the binding always
/// renders, whatever the driver would say.
pub proof fn lemma_rendering_is_total(kind: CudaError, lookup_status: u32, message: Seq<char>)
    requires
        message.len() > 0,
    ensures
        match rendering(kind, lookup_status, message) {
            Ok(text) => text.len() > 0,
            Err(e) => e == RenderError && kind.spec_is_driver_origin() && lookup_status
                != SUCCESS_CODE,
        },
        kind.spec_is_binding_origin() ==> fixed_message(kind) is Some && rendering(
            kind,
            lookup_status,
            message,
        ) == Ok::<Seq<char>, RenderError>(fixed_message(kind).unwrap()),
        kind.spec_is_driver_origin() ==> rendering(kind, lookup_status, message)
            == lookup_outcome(lookup_status, message),
{
    reveal_strlit("Invalid memory allocation");
}

/// Equality of kinds is reflexive, symmetric and transitive.
pub proof fn lemma_equality_is_an_equivalence(a: CudaError, b: CudaError, c: CudaError)
    ensures
        a == a,
        a == b ==> b == a,
        a == b && b == c ==> a == c,
{
}

/// A release fails exactly when its status is a failure, and then the resource
/// comes back unchanged beside the kind of that failure.
pub proof fn lemma_failed_release_returns_resource<T>(code: u32, resource: T)
    ensures
        drop_outcome(code, resource) is Ok <==> code == SUCCESS_CODE,
        code != SUCCESS_CODE ==> drop_outcome(code, resource) == Err::<(), (CudaError, T)>(
            (kind_of_status(code), resource),
        ),
{
}

} // verus!
