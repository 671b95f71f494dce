//! The per-tick frame model: the image being composed during the current
//! tick, as the ordered list of render passes issued against it, with the
//! at-most-one-clear guarantee, and the pixel-to-NDC coordinate conversion
//! used to place textured quads.

use vstd::prelude::*;

verus! {

/// A background colour, one byte per channel.
#[derive(Clone, Copy, PartialEq, Eq, Structural, Debug)]
pub struct Color {
    pub r: u8,
    pub g: u8,
    pub b: u8,
}

/// What a render pass does with the pixels already in the frame: replace
/// them with a solid colour, or keep them and composite on top.
#[derive(Clone, Copy, PartialEq, Eq, Structural, Debug)]
pub enum LoadAction {
    ClearTo(Color),
    Keep,
}

/// A textured quad in normalized device coordinates, held exactly as
/// rationals: each edge coordinate is `num / den`, where the denominators
/// are the surface's pixel dimensions. The top-left corner of the window is
/// NDC (-1, 1), the bottom-right corner (1, -1).
#[derive(Clone, Copy, PartialEq, Eq, Structural, Debug)]
pub struct Quad {
    pub left_num: i64,
    pub right_num: i64,
    pub top_num: i64,
    pub bottom_num: i64,
    pub den_x: u32,
    pub den_y: u32,
}

/// The exact conversion from window-pixel space (origin top-left, y down)
/// to NDC (origin centre, y up, range [-1, 1]):
/// `ndc_x = (x / sw) * 2 - 1 = (2x - sw) / sw` and
/// `ndc_y = 1 - (y / sh) * 2 = (sh - 2y) / sh`,
/// with width and height scaled the same way.
pub open spec fn quad_matches(q: Quad, x: int, y: int, w: int, h: int, sw: int, sh: int) -> bool {
    &&& q.left_num == 2 * x - sw
    &&& q.right_num == 2 * (x + w) - sw
    &&& q.top_num == sh - 2 * y
    &&& q.bottom_num == sh - 2 * (y + h)
    &&& q.den_x == sw
    &&& q.den_y == sh
}

/// Convert a pixel-space rectangle to its NDC quad on a surface of
/// `sw` by `sh` pixels.
pub fn pixel_to_ndc_quad(x: i32, y: i32, w: u32, h: u32, sw: u32, sh: u32) -> (q: Quad)
    ensures
        quad_matches(q, x as int, y as int, w as int, h as int, sw as int, sh as int),
{
    let xl: i64 = x as i64;
    let yl: i64 = y as i64;
    Quad {
        left_num: 2 * xl - sw as i64,
        right_num: 2 * (xl + w as i64) - sw as i64,
        top_num: sh as i64 - 2 * yl,
        bottom_num: sh as i64 - 2 * (yl + h as i64),
        den_x: sw,
        den_y: sh,
    }
}

/// One render pass recorded against the frame: how it treats the existing
/// pixels, and the quad it draws, if any. A clear pass draws nothing; a
/// texture pass keeps the existing pixels and draws one quad.
#[derive(Clone, Copy, PartialEq, Eq, Debug)]
pub struct RenderPass {
    pub load: LoadAction,
    pub quad: Option<Quad>,
}

/// The clear pass for colour `c`.
pub open spec fn clear_pass(c: Color) -> RenderPass {
    RenderPass { load: LoadAction::ClearTo(c), quad: None }
}

/// The textured-quad pass for quad `q`: it loads the existing contents, so
/// successive draws composite in call order.
pub open spec fn draw_pass(q: Quad) -> RenderPass {
    RenderPass { load: LoadAction::Keep, quad: Some(q) }
}

/// How many of the recorded passes clear the frame.
pub open spec fn clear_count(ps: Seq<RenderPass>) -> int
    decreases ps.len(),
{
    if ps.len() == 0 {
        0
    } else {
        clear_count(ps.drop_last()) + if ps.last().load is ClearTo {
            1int
        } else {
            0int
        }
    }
}

/// The abstract state of the frame being composed this tick.
#[verifier::ext_equal]
pub ghost struct FrameView {
    pub cleared: bool,
    pub passes: Seq<RenderPass>,
}

/// A freshly acquired frame: nothing recorded, not yet cleared.
pub open spec fn frame_fresh() -> FrameView {
    FrameView { cleared: false, passes: Seq::empty() }
}

/// A frame holds exactly one clear pass once its `cleared` flag is set, and
/// none before.
pub open spec fn frame_wf(f: FrameView) -> bool {
    clear_count(f.passes) == if f.cleared {
        1int
    } else {
        0int
    }
}

/// A clear request: records a single clear pass the first time, and is a
/// no-op on every later request within the same frame.
pub open spec fn clear_step(f: FrameView, c: Color) -> FrameView {
    if f.cleared {
        f
    } else {
        FrameView { cleared: true, passes: f.passes.push(clear_pass(c)) }
    }
}

/// A draw request: always records one more pass that keeps the existing
/// pixels, whether or not the frame was cleared first.
pub open spec fn draw_step(f: FrameView, q: Quad) -> FrameView {
    FrameView { cleared: f.cleared, passes: f.passes.push(draw_pass(q)) }
}

/// The frame being composed during the current tick.
pub struct Frame {
    cleared: bool,
    passes: Vec<RenderPass>,
}

impl Frame {
    pub closed spec fn view(&self) -> FrameView {
        FrameView { cleared: self.cleared, passes: self.passes@ }
    }

    pub fn new() -> (f: Frame)
        ensures
            f@ == frame_fresh(),
    {
        let f = Frame { cleared: false, passes: Vec::new() };
        proof {
            assert(f@ =~= frame_fresh());
        }
        f
    }

    pub fn is_cleared(&self) -> (r: bool)
        ensures
            r == self@.cleared,
    {
        self.cleared
    }

    pub fn pass_count(&self) -> (n: usize)
        ensures
            n == self@.passes.len(),
    {
        self.passes.len()
    }

    /// Record the clear pass if none has been recorded yet; the returned
    /// pass, if any, is what must be submitted to the device.
    pub fn record_clear(&mut self, c: Color) -> (p: Option<RenderPass>)
        ensures
            final(self)@ == clear_step(old(self)@, c),
            p == if old(self)@.cleared {
                None::<RenderPass>
            } else {
                Some(clear_pass(c))
            },
    {
        if self.cleared {
            None
        } else {
            let pass = RenderPass { load: LoadAction::ClearTo(c), quad: None };
            self.passes.push(pass);
            self.cleared = true;
            Some(pass)
        }
    }

    /// Record one textured-quad pass; the returned pass is what must be
    /// submitted to the device.
    pub fn record_draw(&mut self, q: Quad) -> (p: RenderPass)
        ensures
            final(self)@ == draw_step(old(self)@, q),
            p == draw_pass(q),
    {
        let pass = RenderPass { load: LoadAction::Keep, quad: Some(q) };
        self.passes.push(pass);
        pass
    }
}

/// Clearing twice within one frame records exactly one clear pass, and it
/// carries the first colour: the second request changes nothing at all.
pub proof fn lemma_second_clear_ignored(f: FrameView, c1: Color, c2: Color)
    requires
        frame_wf(f),
        !f.cleared,
    ensures
        clear_step(clear_step(f, c1), c2) == clear_step(f, c1),
        clear_count(clear_step(f, c1).passes) == 1,
        clear_step(f, c1).passes.last() == clear_pass(c1),
        frame_wf(clear_step(f, c1)),
{
    let f1 = clear_step(f, c1);
    assert(f1.passes.drop_last() =~= f.passes);
}

/// A clear request preserves the at-most-one-clear invariant.
pub proof fn lemma_clear_preserves_frame_wf(f: FrameView, c: Color)
    requires
        frame_wf(f),
    ensures
        frame_wf(clear_step(f, c)),
{
    if !f.cleared {
        assert(clear_step(f, c).passes.drop_last() =~= f.passes);
    }
}

/// A draw request preserves the at-most-one-clear invariant.
pub proof fn lemma_draw_preserves_frame_wf(f: FrameView, q: Quad)
    requires
        frame_wf(f),
    ensures
        frame_wf(draw_step(f, q)),
{
    assert(draw_step(f, q).passes.drop_last() =~= f.passes);
}

/// Apply a sequence of draw requests, oldest first.
pub open spec fn apply_draws(f: FrameView, qs: Seq<Quad>) -> FrameView
    decreases qs.len(),
{
    if qs.len() == 0 {
        f
    } else {
        draw_step(apply_draws(f, qs.drop_last()), qs.last())
    }
}

/// N draw requests in one tick record exactly N passes, appended in call
/// order, each keeping the existing pixels and drawing its own quad; the
/// cleared flag is untouched.
pub proof fn lemma_draws_append_in_order(f: FrameView, qs: Seq<Quad>)
    ensures
        apply_draws(f, qs).passes == f.passes + qs.map_values(|q: Quad| draw_pass(q)),
        apply_draws(f, qs).cleared == f.cleared,
    decreases qs.len(),
{
    let m = |q: Quad| draw_pass(q);
    if qs.len() == 0 {
        assert(qs.map_values(m) =~= Seq::<RenderPass>::empty());
        assert(f.passes + qs.map_values(m) =~= f.passes);
    } else {
        lemma_draws_append_in_order(f, qs.drop_last());
        assert(qs.drop_last().map_values(m) =~= qs.map_values(m).drop_last());
        assert((f.passes + qs.map_values(m).drop_last()).push(draw_pass(qs.last())) =~= f.passes
            + qs.map_values(m));
    }
}

} // verus!
