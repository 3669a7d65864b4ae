//! An element that renders arbitrary GPU content through a callback.
use vstd::prelude::*;

verus! {

/// An element that lets users render arbitrary GPU content into a
/// compositable UI element. `C` is the type-erased rendering callback, `S`
/// the element's style.
pub struct GpuCanvas<C, S> {
    pub callback: C,
    pub style: S,
}

/// Create a gpu_canvas element with the given rendering callback and the
/// default style.
pub fn gpu_canvas<C, S: Default>(callback: C) -> (r: GpuCanvas<C, S>)
    ensures
        r.callback == callback,
        call_ensures(S::default, (), r.style),
{
    GpuCanvas { callback, style: S::default() }
}

} // verus!
