//! The calls this library makes on a canvas context. In `src/` they can only
//! be made through a `Canvas` or a `MeasuringCanvas`, and the one function
//! that makes each call states the entry it adds to the record. A `Canvas`
//! holds the only borrow of its context; the one other handle it gives out,
//! for measuring text, is counted. The calls that `app/` makes through
//! `Canvas::ctx` (paths, text and transforms, which are floating point) are
//! not recorded.
use vstd::prelude::*;

use stdweb::web::error::SecurityError;
use stdweb::web::{CanvasGradient, CanvasRenderingContext2d, TextMetrics};

verus! {

/// The rule by which a path is filled.
pub enum FillRule {
    NonZero,
    EvenOdd,
}

/// One call on a canvas context, with what it was given.
pub ghost enum CanvasCall {
    SetFillStyleColor(Seq<char>),
    SetStrokeStyleColor(Seq<char>),
    SetFillStyleGradient(CanvasGradient),
    SetStrokeStyleGradient(CanvasGradient),
    SetFont(Seq<char>),
    MeasureText(Seq<char>),
    Save,
    Restore,
    BeginPath,
    Fill(FillRule),
    Stroke,
}

/// A canvas context borrowed for drawing, with the record of the calls made
/// on it through this borrow and the number of measuring handles given out.
pub struct Canvas<'a> {
    ctx: &'a mut CanvasRenderingContext2d,
    calls: Ghost<Seq<CanvasCall>>,
    handles: Ghost<nat>,
}

impl<'a> Canvas<'a> {
    /// The canvas context.
    pub closed spec fn context(&self) -> CanvasRenderingContext2d {
        *self.ctx
    }

    /// The calls made so far through this borrow, the first one first.
    pub closed spec fn calls(&self) -> Seq<CanvasCall> {
        self.calls@
    }

    /// How many measuring handles were given out.
    pub closed spec fn handles(&self) -> nat {
        self.handles@
    }

    /// The canvas context, with no call made yet.
    pub fn new(ctx: &'a mut CanvasRenderingContext2d) -> (r: Canvas<'a>)
        ensures
            r.context() == *old(ctx),
            r.calls() == Seq::<CanvasCall>::empty(),
            r.handles() == 0,
    {
        Canvas { ctx, calls: Ghost(Seq::empty()), handles: Ghost(0) }
    }

    /// The canvas context, for what is drawn in floating point; calls made
    /// through it are not recorded.
    pub fn ctx(&self) -> (r: &CanvasRenderingContext2d)
        ensures
            *r == self.context(),
    {
        &*self.ctx
    }

    /// A second handle on the canvas context, to measure text on.
    pub fn measuring_handle(&mut self) -> (r: MeasuringCanvas)
        ensures
            r.context() == old(self).context(),
            r.calls() == Seq::<CanvasCall>::empty(),
            final(self).context() == old(self).context(),
            final(self).calls() == old(self).calls(),
            final(self).handles() == old(self).handles() + 1,
        no_unwind
    {
        let ctx = context_clone(&*self.ctx);
        self.handles = Ghost(self.handles@ + 1);
        MeasuringCanvas { ctx, calls: Ghost(Seq::empty()) }
    }

    /// Sets the fill style to a CSS color text.
    pub fn set_fill_style_color(&mut self, color: &str)
        ensures
            final(self).context() == old(self).context(),
            final(self).handles() == old(self).handles(),
            final(self).calls() == old(self).calls().push(CanvasCall::SetFillStyleColor(color@)),
        no_unwind
    {
        canvas_set_fill_style_color(self, color);
    }

    /// Sets the stroke style to a CSS color text.
    pub fn set_stroke_style_color(&mut self, color: &str)
        ensures
            final(self).context() == old(self).context(),
            final(self).handles() == old(self).handles(),
            final(self).calls() == old(self).calls().push(CanvasCall::SetStrokeStyleColor(color@)),
        no_unwind
    {
        canvas_set_stroke_style_color(self, color);
    }

    /// Sets the fill style to a gradient.
    pub fn set_fill_style_gradient(&mut self, gradient: &CanvasGradient)
        ensures
            final(self).context() == old(self).context(),
            final(self).handles() == old(self).handles(),
            final(self).calls() == old(self).calls().push(CanvasCall::SetFillStyleGradient(*gradient)),
        no_unwind
    {
        canvas_set_fill_style_gradient(self, gradient);
    }

    /// Sets the stroke style to a gradient.
    pub fn set_stroke_style_gradient(&mut self, gradient: &CanvasGradient)
        ensures
            final(self).context() == old(self).context(),
            final(self).handles() == old(self).handles(),
            final(self).calls() == old(self).calls().push(CanvasCall::SetStrokeStyleGradient(*gradient)),
        no_unwind
    {
        canvas_set_stroke_style_gradient(self, gradient);
    }

    /// Sets the font to a CSS font text.
    pub fn set_font(&mut self, font: &str)
        ensures
            final(self).context() == old(self).context(),
            final(self).handles() == old(self).handles(),
            final(self).calls() == old(self).calls().push(CanvasCall::SetFont(font@)),
        no_unwind
    {
        canvas_set_font(self, font);
    }

    /// Pushes the drawing state on the canvas's stack.
    pub fn save(&mut self)
        ensures
            final(self).context() == old(self).context(),
            final(self).handles() == old(self).handles(),
            final(self).calls() == old(self).calls().push(CanvasCall::Save),
        no_unwind
    {
        canvas_save(self);
    }

    /// Pops the drawing state last pushed.
    pub fn restore(&mut self)
        ensures
            final(self).context() == old(self).context(),
            final(self).handles() == old(self).handles(),
            final(self).calls() == old(self).calls().push(CanvasCall::Restore),
        no_unwind
    {
        canvas_restore(self);
    }

    /// Starts a new, empty path.
    pub fn begin_path(&mut self)
        ensures
            final(self).context() == old(self).context(),
            final(self).handles() == old(self).handles(),
            final(self).calls() == old(self).calls().push(CanvasCall::BeginPath),
        no_unwind
    {
        canvas_begin_path(self);
    }

    /// Strokes the current path.
    pub fn stroke(&mut self)
        ensures
            final(self).context() == old(self).context(),
            final(self).handles() == old(self).handles(),
            final(self).calls() == old(self).calls().push(CanvasCall::Stroke),
        no_unwind
    {
        canvas_stroke(self);
    }

    /// Fills the current path by the given rule.
    pub fn fill(&mut self, rule: FillRule)
        ensures
            final(self).context() == old(self).context(),
            final(self).handles() == old(self).handles(),
            final(self).calls() == old(self).calls().push(CanvasCall::Fill(rule)),
        no_unwind
    {
        match rule {
            FillRule::NonZero => canvas_fill_nonzero(self),
            FillRule::EvenOdd => canvas_fill_even_odd(self),
        }
    }
}

/// A handle on a canvas context for measuring text, with the record of the
/// calls made through it.
pub struct MeasuringCanvas {
    ctx: CanvasRenderingContext2d,
    calls: Ghost<Seq<CanvasCall>>,
}

impl MeasuringCanvas {
    /// The canvas context.
    pub closed spec fn context(&self) -> CanvasRenderingContext2d {
        self.ctx
    }

    /// The calls made so far through this handle, the first one first.
    pub closed spec fn calls(&self) -> Seq<CanvasCall> {
        self.calls@
    }

    /// Sets the font to a CSS font text.
    pub fn set_font(&mut self, font: &str)
        ensures
            final(self).context() == old(self).context(),
            final(self).calls() == old(self).calls().push(CanvasCall::SetFont(font@)),
    {
        measuring_set_font(self, font);
    }

    /// Measures a text in the current font; what comes back is up to the
    /// browser.
    pub fn measure_text(&mut self, text: &str) -> (r: Result<TextMetrics, SecurityError>)
        ensures
            final(self).context() == old(self).context(),
            final(self).calls() == old(self).calls().push(CanvasCall::MeasureText(text@)),
    {
        measuring_measure_text(self, text)
    }
}

// The calls on a canvas context, and the handle clone. They are private to
// this module, so that in `src/` every call on a canvas goes through a
// `Canvas` or `MeasuringCanvas` method; each states the record entry of the
// one call its body makes. None of them unwinds.

/// `CanvasRenderingContext2d::set_fill_style_color` on the canvas: sets the fill style to a CSS color text; the
/// record gains that call.
#[verifier::external_body]
fn canvas_set_fill_style_color(canvas: &mut Canvas, color: &str)
        ensures
            final(canvas).context() == old(canvas).context(),
            final(canvas).handles() == old(canvas).handles(),
            final(canvas).calls() == old(canvas).calls().push(CanvasCall::SetFillStyleColor(color@)),
        no_unwind
{
    canvas.ctx.set_fill_style_color(color)
}

/// `CanvasRenderingContext2d::set_stroke_style_color` on the canvas: sets the stroke style to a CSS color text; the
/// record gains that call.
#[verifier::external_body]
fn canvas_set_stroke_style_color(canvas: &mut Canvas, color: &str)
        ensures
            final(canvas).context() == old(canvas).context(),
            final(canvas).handles() == old(canvas).handles(),
            final(canvas).calls() == old(canvas).calls().push(CanvasCall::SetStrokeStyleColor(color@)),
        no_unwind
{
    canvas.ctx.set_stroke_style_color(color)
}

/// `CanvasRenderingContext2d::set_fill_style_gradient` on the canvas: sets the fill style to a gradient; the
/// record gains that call.
#[verifier::external_body]
fn canvas_set_fill_style_gradient(canvas: &mut Canvas, gradient: &CanvasGradient)
        ensures
            final(canvas).context() == old(canvas).context(),
            final(canvas).handles() == old(canvas).handles(),
            final(canvas).calls() == old(canvas).calls().push(CanvasCall::SetFillStyleGradient(*gradient)),
        no_unwind
{
    canvas.ctx.set_fill_style_gradient(gradient)
}

/// `CanvasRenderingContext2d::set_stroke_style_gradient` on the canvas: sets the stroke style to a gradient; the
/// record gains that call.
#[verifier::external_body]
fn canvas_set_stroke_style_gradient(canvas: &mut Canvas, gradient: &CanvasGradient)
        ensures
            final(canvas).context() == old(canvas).context(),
            final(canvas).handles() == old(canvas).handles(),
            final(canvas).calls() == old(canvas).calls().push(CanvasCall::SetStrokeStyleGradient(*gradient)),
        no_unwind
{
    canvas.ctx.set_stroke_style_gradient(gradient)
}

/// `CanvasRenderingContext2d::set_font` on the canvas: sets the font to a CSS font text; the
/// record gains that call.
#[verifier::external_body]
fn canvas_set_font(canvas: &mut Canvas, font: &str)
        ensures
            final(canvas).context() == old(canvas).context(),
            final(canvas).handles() == old(canvas).handles(),
            final(canvas).calls() == old(canvas).calls().push(CanvasCall::SetFont(font@)),
        no_unwind
{
    canvas.ctx.set_font(font)
}

/// `CanvasRenderingContext2d::save` on the canvas: pushes the drawing state on the canvas's stack; the
/// record gains that call.
#[verifier::external_body]
fn canvas_save(canvas: &mut Canvas)
        ensures
            final(canvas).context() == old(canvas).context(),
            final(canvas).handles() == old(canvas).handles(),
            final(canvas).calls() == old(canvas).calls().push(CanvasCall::Save),
        no_unwind
{
    canvas.ctx.save()
}

/// `CanvasRenderingContext2d::restore` on the canvas: pops the drawing state last pushed; the
/// record gains that call.
#[verifier::external_body]
fn canvas_restore(canvas: &mut Canvas)
        ensures
            final(canvas).context() == old(canvas).context(),
            final(canvas).handles() == old(canvas).handles(),
            final(canvas).calls() == old(canvas).calls().push(CanvasCall::Restore),
        no_unwind
{
    canvas.ctx.restore()
}

/// `CanvasRenderingContext2d::begin_path` on the canvas: starts a new, empty path; the
/// record gains that call.
#[verifier::external_body]
fn canvas_begin_path(canvas: &mut Canvas)
        ensures
            final(canvas).context() == old(canvas).context(),
            final(canvas).handles() == old(canvas).handles(),
            final(canvas).calls() == old(canvas).calls().push(CanvasCall::BeginPath),
        no_unwind
{
    canvas.ctx.begin_path()
}

/// `CanvasRenderingContext2d::fill` on the canvas: fills the current path by the non-zero rule; the
/// record gains that call.
#[verifier::external_body]
fn canvas_fill_nonzero(canvas: &mut Canvas)
        ensures
            final(canvas).context() == old(canvas).context(),
            final(canvas).handles() == old(canvas).handles(),
            final(canvas).calls() == old(canvas).calls().push(CanvasCall::Fill(FillRule::NonZero)),
        no_unwind
{
    canvas.ctx.fill(stdweb::web::FillRule::NonZero)
}

/// `CanvasRenderingContext2d::fill` on the canvas: fills the current path by the even-odd rule; the
/// record gains that call.
#[verifier::external_body]
fn canvas_fill_even_odd(canvas: &mut Canvas)
        ensures
            final(canvas).context() == old(canvas).context(),
            final(canvas).handles() == old(canvas).handles(),
            final(canvas).calls() == old(canvas).calls().push(CanvasCall::Fill(FillRule::EvenOdd)),
        no_unwind
{
    canvas.ctx.fill(stdweb::web::FillRule::EvenOdd)
}

/// `CanvasRenderingContext2d::stroke` on the canvas: strokes the current path; the
/// record gains that call.
#[verifier::external_body]
fn canvas_stroke(canvas: &mut Canvas)
        ensures
            final(canvas).context() == old(canvas).context(),
            final(canvas).handles() == old(canvas).handles(),
            final(canvas).calls() == old(canvas).calls().push(CanvasCall::Stroke),
        no_unwind
{
    canvas.ctx.stroke()
}

/// `CanvasRenderingContext2d::set_font` on the measuring handle; the record
/// gains that call.
#[verifier::external_body]
fn measuring_set_font(canvas: &mut MeasuringCanvas, font: &str)
    ensures
        final(canvas).context() == old(canvas).context(),
        final(canvas).calls() == old(canvas).calls().push(CanvasCall::SetFont(font@)),
    no_unwind
{
    canvas.ctx.set_font(font)
}

/// `CanvasRenderingContext2d::measure_text` on the measuring handle: what
/// comes back depends on the browser, so nothing is stated of it; the record
/// gains that call.
#[verifier::external_body]
fn measuring_measure_text(canvas: &mut MeasuringCanvas, text: &str) -> (r: Result<
    TextMetrics,
    SecurityError,
>)
    ensures
        final(canvas).context() == old(canvas).context(),
        final(canvas).calls() == old(canvas).calls().push(CanvasCall::MeasureText(text@)),
    no_unwind
{
    canvas.ctx.measure_text(text)
}

/// `Clone` of a context handle: a second handle on the same context. The
/// handle is a reference id, and the clone keeps the id.
#[verifier::external_body]
fn context_clone(ctx: &CanvasRenderingContext2d) -> (r: CanvasRenderingContext2d)
    ensures
        r == *ctx,
    no_unwind
{
    ctx.clone()
}

} // verus!
