//! A safety layer over a foreign virtual machine's native-extension ABI.
//!
//! The VM owns every managed value and hands the host only opaque handles.
//! This crate models what the host-side layer reads of those handles and
//! verifies the layer's decisions: runtime-checked downcasts from a generic
//! handle to a typed one, the recoverable-error bridge, the port lifecycle
//! rules, and the tagged-union message codec used for cross-isolate
//! communication.  The raw C calls themselves live outside the library, in a
//! thin unverified veneer that populates the model values defined here.

use vstd::prelude::*;

pub mod cobject;
pub mod handle;
pub mod port;

use handle::Any;
use handle::DartHandle;

verus! {

/// Collapses either branch of a handle result to a generic handle, for
/// layers that do not carry the result's type information: the VM itself
/// interprets whether the handle is an error.
pub fn unwrap<A: DartHandle, B: DartHandle>(result: Result<A, B>) -> (r: Any)
    ensures
        result is Ok ==> r@ == result->Ok_0.any_view(),
        result is Err ==> r@ == result->Err_0.any_view(),
{
    match result {
        Ok(a) => a.as_any(),
        Err(b) => b.as_any(),
    }
}

/// Forgets the success type of a handle result while keeping the
/// success/error distinction.
pub fn simplify_result<A: DartHandle>(result: Result<A, handle::Error>) -> (r: Result<
    Any,
    handle::Error,
>)
    ensures
        result is Ok ==> r is Ok && r->Ok_0@ == result->Ok_0.any_view(),
        result is Err ==> r is Err && r->Err_0 == result->Err_0,
{
    match result {
        Ok(a) => Ok(a.as_any()),
        Err(b) => Err(b),
    }
}

} // verus!

