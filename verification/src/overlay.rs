//! The overlay context manager: lazy, exactly-once construction of the
//! secondary graphics context and UI engine, and the per-frame bookkeeping
//! of pending draw primitives and texture deltas.
//!
//! The platform performs the surface queries, context creation and engine
//! binding; their results arrive as an [`InitProbe`]. Construction runs at
//! most once per process: once a context exists, every later call returns it
//! untouched. Draw primitives and texture deltas are opaque tokens here; the
//! caller keeps the real values under the same indices.

use vstd::prelude::*;

verus! {

/// Why lazy construction failed. Every variant is treated as fatal by the
/// embedding payload: the overlay cannot be placed without dimensions, and
/// continuing with a half-built context would leave the host in an ambiguous
/// state.
#[derive(Clone, Copy, Debug, PartialEq, Eq, Structural)]
pub enum InitError {
    /// The host surface refused the pixel-dimension query.
    DimensionQuery,
    /// No graphics context was current on the calling thread, so there is
    /// nothing to restore after construction.
    NoHostContext,
    /// The secondary context could not be created on the host display.
    ContextCreation,
    /// The UI-rendering engine could not be bound to the new context.
    EngineCreation,
}

/// The results of the one-time construction sequence, as the platform
/// reported them: the surface's pixel dimensions, the created secondary
/// context (zero or absent on failure), and the UI engine bound under it.
#[derive(Clone, Copy, Debug)]
pub struct InitProbe {
    pub width: Option<u32>,
    pub height: Option<u32>,
    pub new_ctx: Option<usize>,
    pub engine: Option<u64>,
}

/// The mathematical state of a constructed overlay context.
pub struct OverlayContextV {
    /// The secondary graphics context handle; never zero.
    pub render_ctx: usize,
    /// The UI-rendering engine bound to that context.
    pub engine: u64,
    /// Target surface width in pixels.
    pub width: u32,
    /// Target surface height in pixels.
    pub height: u32,
    /// Pending draw primitives, in order; cleared each frame.
    pub shapes: Seq<u64>,
    /// Pending texture deltas, accumulated; consumed each frame.
    pub textures: Seq<u64>,
}

impl OverlayContextV {
    pub open spec fn wf(self) -> bool {
        self.render_ctx != 0
    }
}

/// The mathematical state of the manager: the at-most-one context and how
/// many times construction has completed.
pub struct OverlayStateV {
    pub ctx: Option<OverlayContextV>,
    pub constructions: nat,
}

impl OverlayStateV {
    /// A context exists exactly when construction completed once, and
    /// construction never completes twice.
    pub open spec fn inv(self) -> bool {
        &&& (self.ctx is Some <==> self.constructions == 1)
        &&& self.constructions <= 1
        &&& (self.ctx matches Some(c) ==> c.wf())
    }
}

/// What one construction attempt yields: the checks run in the order the
/// construction sequence performs them, and the first refusal names the
/// error. On success the context starts with nothing pending.
pub open spec fn init_step(host_ctx: usize, probe: InitProbe) -> Result<
    OverlayContextV,
    InitError,
> {
    if probe.width is None || probe.height is None {
        Err(InitError::DimensionQuery)
    } else if host_ctx == 0 {
        Err(InitError::NoHostContext)
    } else if !(probe.new_ctx matches Some(c) && c != 0) {
        Err(InitError::ContextCreation)
    } else if probe.engine is None {
        Err(InitError::EngineCreation)
    } else {
        Ok(
            OverlayContextV {
                render_ctx: probe.new_ctx->Some_0,
                engine: probe.engine->Some_0,
                width: probe.width->Some_0,
                height: probe.height->Some_0,
                shapes: Seq::empty(),
                textures: Seq::empty(),
            },
        )
    }
}

/// One step of the lazy-initialization state machine: an already-constructed
/// context is returned untouched; otherwise one construction attempt runs
/// and, on success alone, the construction count rises.
pub open spec fn ensure_step(s: OverlayStateV, host_ctx: usize, probe: InitProbe) -> (
    OverlayStateV,
    Result<(), InitError>,
) {
    if s.ctx is Some {
        (s, Ok(()))
    } else {
        match init_step(host_ctx, probe) {
            Ok(c) => (
                OverlayStateV { ctx: Some(c), constructions: s.constructions + 1 },
                Ok(()),
            ),
            Err(e) => (s, Err(e)),
        }
    }
}

/// The process-wide overlay manager. Mutation is caller-serialized: the
/// design assumes the host serializes its presentation calls, and does not
/// lock internally.
pub struct OverlayManager {
    render_ctx: usize,
    engine: u64,
    width: u32,
    height: u32,
    shapes: Vec<u64>,
    textures: Vec<u64>,
    initialized: bool,
    constructions: u64,
}

/// One frame's paint call against the secondary context: the primitives to
/// tessellate and draw, the texture deltas to apply first, and the stored
/// target dimensions.
pub struct PaintJob {
    pub primitives: Vec<u64>,
    pub textures: Vec<u64>,
    pub width: u32,
    pub height: u32,
}

impl OverlayManager {
    pub closed spec fn view(self) -> OverlayStateV {
        OverlayStateV {
            ctx: if self.initialized {
                Some(
                    OverlayContextV {
                        render_ctx: self.render_ctx,
                        engine: self.engine,
                        width: self.width,
                        height: self.height,
                        shapes: self.shapes@,
                        textures: self.textures@,
                    },
                )
            } else {
                None
            },
            constructions: self.constructions as nat,
        }
    }

    /// A manager with nothing constructed: the context only ever comes into
    /// being on the first intercepted frame.
    pub fn new() -> (r: OverlayManager)
        ensures
            r@ == (OverlayStateV { ctx: None, constructions: 0 }),
            r@.inv(),
    {
        OverlayManager {
            render_ctx: 0,
            engine: 0,
            width: 0,
            height: 0,
            shapes: Vec::new(),
            textures: Vec::new(),
            initialized: false,
            constructions: 0,
        }
    }

    /// Whether construction has completed.
    pub fn is_initialized(&self) -> (r: bool)
        ensures
            r == (self@.ctx is Some),
    {
        self.initialized
    }

    /// How many times construction has completed; at most one under the
    /// manager's invariant.
    pub fn construction_count(&self) -> (r: u64)
        ensures
            r == self@.constructions,
    {
        self.constructions
    }

    /// The secondary context handle, present exactly when constructed.
    pub fn render_context(&self) -> (r: Option<usize>)
        requires
            self@.inv(),
        ensures
            match r {
                Some(c) => self@.ctx matches Some(v) && c == v.render_ctx && c != 0,
                None => self@.ctx is None,
            },
    {
        if self.initialized {
            Some(self.render_ctx)
        } else {
            None
        }
    }

    /// Lazy, exactly-once construction: exactly [`ensure_step`]. On the
    /// first call the platform's probe results are validated and, when all
    /// held, the context exists from here on; every later call returns with
    /// nothing changed. `host_ctx` is the context current on the calling
    /// thread, which construction restores afterwards.
    pub fn ensure_initialized(&mut self, host_ctx: usize, probe: InitProbe) -> (r: Result<
        (),
        InitError,
    >)
        requires
            old(self)@.inv(),
        ensures
            (final(self)@, r) == ensure_step(old(self)@, host_ctx, probe),
            final(self)@.inv(),
    {
        if self.initialized {
            return Ok(());
        }
        if self.width_or_height_missing(&probe) {
            return Err(InitError::DimensionQuery);
        }
        if host_ctx == 0 {
            return Err(InitError::NoHostContext);
        }
        let new_ctx = match probe.new_ctx {
            Some(c) => {
                if c == 0 {
                    return Err(InitError::ContextCreation);
                } else {
                    c
                }
            },
            None => {
                return Err(InitError::ContextCreation);
            },
        };
        let engine = match probe.engine {
            Some(e) => e,
            None => {
                return Err(InitError::EngineCreation);
            },
        };
        self.render_ctx = new_ctx;
        self.engine = engine;
        self.width = match probe.width {
            Some(w) => w,
            None => 0,
        };
        self.height = match probe.height {
            Some(h) => h,
            None => 0,
        };
        self.shapes = Vec::new();
        self.textures = Vec::new();
        self.initialized = true;
        self.constructions = self.constructions + 1;
        Ok(())
    }

    fn width_or_height_missing(&self, probe: &InitProbe) -> (r: bool)
        ensures
            r == (probe.width is None || probe.height is None),
    {
        match (probe.width, probe.height) {
            (Some(_), Some(_)) => false,
            _ => true,
        }
    }

    /// One overlay frame's bookkeeping. `new_shapes` and `new_textures` are
    /// what the UI engine produced this frame. The paint call carries this
    /// frame's primitives and the texture deltas merged with any previously
    /// unconsumed ones, against the stored dimensions; drawing is
    /// destructive, so nothing stays pending afterwards.
    pub fn render_frame(&mut self, new_shapes: Vec<u64>, new_textures: Vec<u64>) -> (job: PaintJob)
        requires
            old(self)@.inv(),
            old(self)@.ctx is Some,
        ensures
            final(self)@.inv(),
            final(self)@.constructions == old(self)@.constructions,
            final(self)@.ctx matches Some(c) && (old(self)@.ctx matches Some(o) && {
                &&& c.render_ctx == o.render_ctx
                &&& c.engine == o.engine
                &&& c.width == o.width
                &&& c.height == o.height
                &&& c.shapes == Seq::<u64>::empty()
                &&& c.textures == Seq::<u64>::empty()
                &&& job.primitives@ == new_shapes@
                &&& job.textures@ == o.textures + new_textures@
                &&& job.width == o.width
                &&& job.height == o.height
            }),
    {
        let mut tex: Vec<u64> = Vec::new();
        let mut i: usize = 0;
        while i < self.textures.len()
            invariant
                i <= self.textures@.len(),
                tex@ == self.textures@.subrange(0, i as int),
            decreases self.textures@.len() - i,
        {
            tex.push(self.textures[i]);
            i = i + 1;
        }
        assert(tex@ =~= self.textures@);
        let mut j: usize = 0;
        while j < new_textures.len()
            invariant
                j <= new_textures@.len(),
                tex@ == self.textures@ + new_textures@.subrange(0, j as int),
            decreases new_textures@.len() - j,
        {
            tex.push(new_textures[j]);
            proof {
                assert(tex@ =~= self.textures@ + new_textures@.subrange(0, j + 1));
            }
            j = j + 1;
        }
        assert(tex@ =~= self.textures@ + new_textures@);
        self.shapes = Vec::new();
        self.textures = Vec::new();
        PaintJob {
            primitives: new_shapes,
            textures: tex,
            width: self.width,
            height: self.height,
        }
    }
}

/// Every initialization step keeps the manager's invariant: a context exists
/// exactly when construction completed once, and never more than once.
pub proof fn lemma_ensure_preserves_inv(s: OverlayStateV, host_ctx: usize, probe: InitProbe)
    requires
        s.inv(),
    ensures
        ensure_step(s, host_ctx, probe).0.inv(),
{
}

/// Exactly-once lazy initialization: once a step has left a context
/// constructed, every later step returns it untouched and reports success,
/// and the construction count stands at one for the process's lifetime.
pub proof fn lemma_init_exactly_once(
    s: OverlayStateV,
    h1: usize,
    p1: InitProbe,
    h2: usize,
    p2: InitProbe,
)
    requires
        s.inv(),
        ensure_step(s, h1, p1).0.ctx is Some,
    ensures
        ({
            let s1 = ensure_step(s, h1, p1).0;
            &&& ensure_step(s1, h2, p2).0 == s1
            &&& ensure_step(s1, h2, p2).1 == Ok::<(), InitError>(())
            &&& s1.constructions == 1
        }),
{
}

} // verus!
