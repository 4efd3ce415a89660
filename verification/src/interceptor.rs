//! The frame interceptor: the replacement the hook routes the host's
//! presentation call to.
//!
//! On every invocation it ensures the overlay context exists (constructing
//! it lazily on the first frame), saves the host's active context, activates
//! the overlay context, runs one overlay frame, restores the host's context,
//! and only then forwards the call to the preserved original with identical
//! arguments, returning its result unchanged. The platform side executes
//! the plan the step emits, in the plan's order.

use vstd::prelude::*;
use vstd::pervasive::unreached;

use crate::hook::HookInstaller;
use crate::overlay::InitError;
use crate::overlay::InitProbe;
use crate::overlay::OverlayManager;
use crate::overlay::PaintJob;
use crate::overlay::ensure_step;

verus! {

/// The context state of the thread the host presents from: which graphics
/// context is current (zero when none is).
pub struct Gfx {
    pub current: usize,
}

/// The forwarding of the intercepted call: the preserved original and the
/// exact arguments the host passed in.
#[derive(Clone, Copy, Debug, PartialEq, Eq, Structural)]
pub struct ForwardCall {
    pub target: usize,
    pub display: usize,
    pub surface: usize,
}

/// One step of the mandated per-invocation order, as the platform must
/// execute it.
#[derive(Clone, Copy, Debug, PartialEq, Eq, Structural)]
pub enum FrameAction {
    /// Activate this context on the calling thread.
    MakeCurrent { ctx: usize },
    /// Issue the frame's paint call against the overlay context.
    PaintOverlay,
    /// Call the preserved original with the host's own arguments.
    ForwardOriginal { target: usize, display: usize, surface: usize },
}

/// Everything one intercepted invocation asks the platform to do: the
/// ordered actions, the paint call's content, and the forwarded call.
pub struct FramePlan {
    pub actions: Vec<FrameAction>,
    pub job: PaintJob,
    pub forward: ForwardCall,
}

/// Which context is current after running `acts` from `start`, in order.
pub open spec fn apply_current(start: usize, acts: Seq<FrameAction>) -> usize
    decreases acts.len(),
{
    if acts.len() == 0 {
        start
    } else {
        match acts.last() {
            FrameAction::MakeCurrent { ctx } => ctx,
            _ => apply_current(start, acts.drop_last()),
        }
    }
}

/// One intercepted presentation call, `display` and `surface` being the
/// host's own arguments. `probe` carries the platform's construction
/// results, read only on the first frame; `new_shapes` and `new_textures`
/// are the UI engine's output for this frame.
///
/// On success the emitted plan is exactly: activate the overlay context,
/// paint, reactivate the context that was current on entry, forward to the
/// hook's preserved original with identical arguments — and the model
/// context state ends where it began. On a failed first-frame construction
/// the manager is unchanged and the error names the first refusal; the
/// embedding payload treats that as fatal.
pub fn intercept_frame(
    mgr: &mut OverlayManager,
    hook: &HookInstaller,
    gfx: &mut Gfx,
    display: usize,
    surface: usize,
    probe: InitProbe,
    new_shapes: Vec<u64>,
    new_textures: Vec<u64>,
) -> (r: Result<FramePlan, InitError>)
    requires
        old(mgr)@.inv(),
        hook@.wf(),
        hook@.installed,
    ensures
        final(mgr)@.inv(),
        final(gfx).current == old(gfx).current,
        match r {
            Ok(plan) => ({
                let stepped = ensure_step(old(mgr)@, old(gfx).current, probe).0;
                &&& stepped.ctx matches Some(c) && {
                    &&& plan.forward == (ForwardCall {
                        target: hook@.original,
                        display,
                        surface,
                    })
                    &&& plan.job.primitives@ == new_shapes@
                    &&& plan.job.textures@ == c.textures + new_textures@
                    &&& plan.job.width == c.width
                    &&& plan.job.height == c.height
                    &&& plan.actions@ == seq![
                        FrameAction::MakeCurrent { ctx: c.render_ctx },
                        FrameAction::PaintOverlay,
                        FrameAction::MakeCurrent { ctx: old(gfx).current },
                        FrameAction::ForwardOriginal {
                            target: hook@.original,
                            display,
                            surface,
                        },
                    ]
                    &&& apply_current(old(gfx).current, plan.actions@) == old(gfx).current
                }
                &&& final(mgr)@.constructions == stepped.constructions
                &&& final(mgr)@.ctx matches Some(after) && (stepped.ctx matches Some(c) && {
                    &&& after.render_ctx == c.render_ctx
                    &&& after.engine == c.engine
                    &&& after.width == c.width
                    &&& after.height == c.height
                    &&& after.shapes == Seq::<u64>::empty()
                    &&& after.textures == Seq::<u64>::empty()
                })
            }),
            Err(e) => {
                &&& ensure_step(old(mgr)@, old(gfx).current, probe) == (
                    old(mgr)@,
                    Err::<(), InitError>(e),
                )
                &&& final(mgr)@ == old(mgr)@
            },
        },
{
    let host_ctx = gfx.current;
    match mgr.ensure_initialized(host_ctx, probe) {
        Ok(()) => (),
        Err(e) => {
            return Err(e);
        },
    }
    let overlay_ctx = match mgr.render_context() {
        Some(c) => c,
        None => unreached(),
    };
    // Activate the overlay context, draw, and restore the host's context
    // before anything is forwarded.
    gfx.current = overlay_ctx;
    let job = mgr.render_frame(new_shapes, new_textures);
    gfx.current = host_ctx;
    let target = match hook.trampoline() {
        Some(t) => t,
        None => unreached(),
    };
    let mut actions: Vec<FrameAction> = Vec::new();
    actions.push(FrameAction::MakeCurrent { ctx: overlay_ctx });
    actions.push(FrameAction::PaintOverlay);
    actions.push(FrameAction::MakeCurrent { ctx: host_ctx });
    actions.push(FrameAction::ForwardOriginal { target, display, surface });
    proof {
        assert(actions@ =~= seq![
            FrameAction::MakeCurrent { ctx: overlay_ctx },
            FrameAction::PaintOverlay,
            FrameAction::MakeCurrent { ctx: host_ctx },
            FrameAction::ForwardOriginal { target, display, surface },
        ]);
        reveal_with_fuel(apply_current, 5);
    }
    Ok(FramePlan { actions, job, forward: ForwardCall { target, display, surface } })
}

/// The value the original returned for the forwarded call is handed back to
/// the host unmodified; overlay work never changes what the host sees
/// returned.
pub fn complete_frame(call: &ForwardCall, original_result: u32) -> (r: u32)
    ensures
        r == original_result,
{
    original_result
}

/// Forwarding transparency: the forwarded call carries the intercepted
/// call's own arguments to the hook's preserved original, so any function of
/// the arguments — in particular the original presentation routine —
/// computes on the forwarded call exactly what a direct call with those
/// arguments would have computed.
pub proof fn lemma_forwarding_transparent(
    orig: spec_fn(usize, usize) -> u32,
    fwd: ForwardCall,
    original: usize,
    display: usize,
    surface: usize,
)
    requires
        fwd == (ForwardCall { target: original, display, surface }),
    ensures
        fwd.target == original,
        orig(fwd.display, fwd.surface) == orig(display, surface),
{
}

/// Context restoration: a successful plan's actions, applied in order from
/// the context that was current on entry, end with that same context
/// current — the paint and the forwarding happen strictly between the two
/// activations.
pub proof fn lemma_plan_restores_context(
    host_ctx: usize,
    overlay_ctx: usize,
    fwd: ForwardCall,
)
    ensures
        apply_current(
            host_ctx,
            seq![
                FrameAction::MakeCurrent { ctx: overlay_ctx },
                FrameAction::PaintOverlay,
                FrameAction::MakeCurrent { ctx: host_ctx },
                FrameAction::ForwardOriginal {
                    target: fwd.target,
                    display: fwd.display,
                    surface: fwd.surface,
                },
            ],
        ) == host_ctx,
{
    reveal_with_fuel(apply_current, 5);
}

} // verus!
