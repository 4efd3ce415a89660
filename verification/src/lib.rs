//! Verified core of a frame-presentation overlay payload.
//!
//! The library models the decision logic of an in-process overlay: resolving
//! the presentation symbol inside the host's module metadata, installing a
//! hook that preserves a callable original, lazily constructing an overlay
//! graphics context exactly once, and running one overlay pass per
//! intercepted frame before forwarding the call to the original function.
//! Platform calls (symbol tables, detour patching, EGL/WGL, the UI toolkit)
//! happen outside the library; every decision taken on their results is
//! verified here over plain values.

use vstd::prelude::*;

mod hook;
mod interceptor;
mod overlay;
mod resolve;

pub use hook::HookInstaller;
pub use hook::HookStateV;
pub use hook::InstallError;
pub use hook::PatchOutcome;
pub use hook::install_step;
pub use hook::lemma_install_idempotent;
pub use hook::lemma_install_preserves_wf;
pub use interceptor::ForwardCall;
pub use interceptor::FrameAction;
pub use interceptor::FramePlan;
pub use interceptor::Gfx;
pub use interceptor::apply_current;
pub use interceptor::complete_frame;
pub use interceptor::intercept_frame;
pub use interceptor::lemma_forwarding_transparent;
pub use interceptor::lemma_plan_restores_context;
pub use overlay::InitError;
pub use overlay::InitProbe;
pub use overlay::OverlayContextV;
pub use overlay::OverlayManager;
pub use overlay::OverlayStateV;
pub use overlay::PaintJob;
pub use overlay::ensure_step;
pub use overlay::init_step;
pub use overlay::lemma_ensure_preserves_inv;
pub use overlay::lemma_init_exactly_once;
pub use resolve::MapEntry;
pub use resolve::SymbolEntry;
pub use resolve::contains_subslice;
pub use resolve::eq_bytes;
pub use resolve::find_module_fuzzy;
pub use resolve::resolve;
pub use resolve::probe_address;

verus! {

/// True when `needle` occurs in `hay` starting at index `i`.
pub open spec fn matches_at(hay: Seq<u8>, needle: Seq<u8>, i: int) -> bool {
    &&& 0 <= i
    &&& i + needle.len() <= hay.len()
    &&& forall|k: int| 0 <= k < needle.len() ==> hay[i + k] == needle[k]
}

/// True when `needle` occurs somewhere in `hay`.
pub open spec fn contains_sub(hay: Seq<u8>, needle: Seq<u8>) -> bool {
    exists|i: int| matches_at(hay, needle, i)
}

} // verus!
