//! The render context over a canvas, its brushes, text layouts and images.
use vstd::prelude::*;

use piet::Error;
use stdweb::web::error::SecurityError;
use stdweb::web::{CanvasGradient, CanvasRenderingContext2d, TextMetrics};
use stdweb::Value;

use crate::bindings;
use crate::canvas::{Canvas, CanvasCall, FillRule, MeasuringCanvas};
use crate::css::{css_color, format_color};
use crate::font::{FontView, WebFont, WebFontBuilder, font_by_name, font_text};

verus! {

/// What a shape is painted with: a solid packed 0xRRGGBBAA color, or a
/// canvas gradient.
pub enum Brush {
    Solid(u32),
    Gradient(CanvasGradient),
}

impl Clone for Brush {
    fn clone(&self) -> (r: Self)
        ensures
            r == *self,
    {
        match self {
            Brush::Solid(rgba) => Brush::Solid(*rgba),
            Brush::Gradient(gradient) => Brush::Gradient(bindings::gradient_clone(gradient)),
        }
    }
}

/// What the canvas is given as a fill or stroke style.
pub enum CanvasStyle<'b> {
    /// A CSS color text.
    Color(String),
    /// A gradient.
    Gradient(&'b CanvasGradient),
}

impl Brush {
    /// The style that the brush paints with: the CSS color text of a solid
    /// brush, or the brush's own gradient.
    pub fn canvas_style(&self) -> (r: CanvasStyle<'_>)
        ensures
            match self {
                Brush::Solid(rgba) => r matches CanvasStyle::Color(s) && s@ == css_color(*rgba),
                Brush::Gradient(g) => r == CanvasStyle::Gradient(g),
            },
    {
        match self {
            Brush::Solid(rgba) => CanvasStyle::Color(format_color(*rgba)),
            Brush::Gradient(gradient) => CanvasStyle::Gradient(gradient),
        }
    }
}

/// The call that sets the canvas's fill style (`is_fill`) or stroke style
/// (otherwise) to a brush.
pub open spec fn style_call(brush: Brush, is_fill: bool) -> CanvasCall {
    match brush {
        Brush::Solid(rgba) => if is_fill {
            CanvasCall::SetFillStyleColor(css_color(rgba))
        } else {
            CanvasCall::SetStrokeStyleColor(css_color(rgba))
        },
        Brush::Gradient(g) => if is_fill {
            CanvasCall::SetFillStyleGradient(g)
        } else {
            CanvasCall::SetStrokeStyleGradient(g)
        },
    }
}

/// A render context drawing on a canvas.
pub struct WebRenderContext<'a> {
    canvas: Canvas<'a>,
    err: Result<(), Error>,
}

impl<'a> WebRenderContext<'a> {
    /// The context never holds an error back: it starts without one, and
    /// nothing that draws sets one.
    #[verifier::type_invariant]
    closed spec fn holds_no_error(&self) -> bool {
        self.err is Ok
    }

    /// The canvas context drawn on.
    pub closed spec fn canvas(&self) -> CanvasRenderingContext2d {
        self.canvas.context()
    }

    /// The calls this context has made on its canvas, in order (the calls
    /// that `app/` makes through `ctx` are not among them).
    pub closed spec fn calls(&self) -> Seq<CanvasCall> {
        self.canvas.calls()
    }

    /// How many handles on its canvas this context has given out for
    /// measuring text.
    pub closed spec fn handles(&self) -> nat {
        self.canvas.handles()
    }

    /// A render context on the given canvas context; it makes no call on it.
    pub fn new(ctx: &'a mut CanvasRenderingContext2d) -> (r: WebRenderContext<'a>)
        ensures
            r.canvas() == *old(ctx),
            r.calls() == Seq::<CanvasCall>::empty(),
            r.handles() == 0,
    {
        WebRenderContext { canvas: Canvas::new(ctx), err: Ok(()) }
    }

    /// The canvas context drawn on.
    pub fn ctx(&self) -> (r: &CanvasRenderingContext2d)
        ensures
            *r == self.canvas(),
    {
        self.canvas.ctx()
    }

    /// Hands out the error held back and clears it; as none is ever held
    /// back, this always succeeds. It makes no call on the canvas.
    pub fn status(&mut self) -> (r: Result<(), Error>)
        ensures
            r is Ok,
            final(self).canvas() == old(self).canvas(),
            final(self).calls() == old(self).calls(),
            final(self).handles() == old(self).handles(),
    {
        proof {
            use_type_invariant(&*self);
        }
        let mut r: Result<(), Error> = Ok(());
        std::mem::swap(&mut r, &mut self.err);
        r
    }

    /// Ends drawing: hands out the error held back, which never fails, and
    /// makes no call on the canvas.
    pub fn finish(&mut self) -> (r: Result<(), Error>)
        ensures
            r is Ok,
            final(self).canvas() == old(self).canvas(),
            final(self).calls() == old(self).calls(),
            final(self).handles() == old(self).handles(),
    {
        self.status()
    }

    /// A solid brush of the given color, packed as 0xRRGGBBAA; no call is
    /// made on the canvas.
    pub fn solid_brush(&mut self, rgba: u32) -> (r: Brush)
        ensures
            r == Brush::Solid(rgba),
            final(self).canvas() == old(self).canvas(),
            final(self).calls() == old(self).calls(),
            final(self).handles() == old(self).handles(),
    {
        Brush::Solid(rgba)
    }

    /// Pushes the canvas state (transform, clip, styles) on the canvas's stack.
    pub fn save(&mut self) -> (r: Result<(), Error>)
        ensures
            r is Ok,
            final(self).canvas() == old(self).canvas(),
            final(self).calls() == old(self).calls().push(CanvasCall::Save),
            final(self).handles() == old(self).handles(),
    {
        proof {
            use_type_invariant(&*self);
        }
        self.canvas.save();
        Ok(())
    }

    /// Pops the canvas state last pushed by `save`.
    pub fn restore(&mut self) -> (r: Result<(), Error>)
        ensures
            r is Ok,
            final(self).canvas() == old(self).canvas(),
            final(self).calls() == old(self).calls().push(CanvasCall::Restore),
            final(self).handles() == old(self).handles(),
    {
        proof {
            use_type_invariant(&*self);
        }
        self.canvas.restore();
        Ok(())
    }

    /// Sets the canvas's fill style (`is_fill`) or stroke style (otherwise)
    /// to the brush's `canvas_style`: exactly the call `style_call`.
    pub fn set_brush(&mut self, brush: &Brush, is_fill: bool)
        ensures
            final(self).canvas() == old(self).canvas(),
            final(self).calls() == old(self).calls().push(style_call(*brush, is_fill)),
            final(self).handles() == old(self).handles(),
    {
        proof {
            use_type_invariant(&*self);
        }
        match brush.canvas_style() {
            CanvasStyle::Color(color_str) => {
                if is_fill {
                    self.canvas.set_fill_style_color(color_str.as_str());
                } else {
                    self.canvas.set_stroke_style_color(color_str.as_str());
                }
            },
            CanvasStyle::Gradient(gradient) => {
                if is_fill {
                    self.canvas.set_fill_style_gradient(gradient);
                } else {
                    self.canvas.set_stroke_style_gradient(gradient);
                }
            },
        }
    }

    /// Starts a new, empty path on the canvas.
    pub fn begin_path(&mut self)
        ensures
            final(self).canvas() == old(self).canvas(),
            final(self).calls() == old(self).calls().push(CanvasCall::BeginPath),
            final(self).handles() == old(self).handles(),
    {
        proof {
            use_type_invariant(&*self);
        }
        self.canvas.begin_path();
    }

    /// Fills the current path by the rule, in the current fill style.
    pub fn fill_current_path(&mut self, rule: FillRule)
        ensures
            final(self).canvas() == old(self).canvas(),
            final(self).calls() == old(self).calls().push(CanvasCall::Fill(rule)),
            final(self).handles() == old(self).handles(),
    {
        proof {
            use_type_invariant(&*self);
        }
        self.canvas.fill(rule);
    }

    /// Fills the current path by the rule, with the brush as fill style.
    pub fn paint_fill(&mut self, brush: &Brush, rule: FillRule)
        ensures
            final(self).canvas() == old(self).canvas(),
            final(self).calls() == old(self).calls().push(style_call(*brush, true)).push(
                CanvasCall::Fill(rule),
            ),
            final(self).handles() == old(self).handles(),
    {
        self.set_brush(brush, true);
        self.fill_current_path(rule);
    }

    /// Strokes the current path, with the brush as stroke style.
    pub fn paint_stroke(&mut self, brush: &Brush)
        ensures
            final(self).canvas() == old(self).canvas(),
            final(self).calls() == old(self).calls().push(style_call(*brush, false)).push(
                CanvasCall::Stroke,
            ),
            final(self).handles() == old(self).handles(),
    {
        self.set_brush(brush, false);
        proof {
            use_type_invariant(&*self);
        }
        self.canvas.stroke();
    }

    /// Gets the canvas ready to fill the text of a layout: sets its font to
    /// the layout's font text, then its fill style to the brush.
    pub fn prepare_text(&mut self, layout: &WebTextLayout, brush: &Brush)
        ensures
            final(self).canvas() == old(self).canvas(),
            final(self).calls() == old(self).calls().push(CanvasCall::SetFont(font_text(layout@.0))).push(
                style_call(*brush, true),
            ),
            final(self).handles() == old(self).handles(),
    {
        proof {
            use_type_invariant(&*self);
        }
        let font = layout.font.get_font_string();
        self.canvas.set_font(font.as_str());
        self.set_brush(brush, true);
    }

    /// A font of the given family name and size text, of weight 400 and
    /// normal style; no call is made on the canvas.
    pub fn new_font_by_name(&mut self, name: &str, size: &str) -> (r: Result<
        WebFontBuilder,
        Error,
    >)
        ensures
            r matches Ok(builder) && builder@ == font_by_name(name@, size@),
            final(self).canvas() == old(self).canvas(),
            final(self).calls() == old(self).calls(),
            final(self).handles() == old(self).handles(),
    {
        Ok(WebFontBuilder::by_name(name, size))
    }

    /// A layout of the text in the font, to be measured on this canvas
    /// through a second handle on it, given out here; no call is made on the
    /// canvas yet.
    pub fn new_text_layout(&mut self, font: &WebFont, text: &str) -> (r: Result<
        WebTextLayoutBuilder,
        Error,
    >)
        ensures
            r matches Ok(builder) && builder@ == (font@, text@) && builder.canvas()
                == old(self).canvas() && builder.calls() == Seq::<CanvasCall>::empty(),
            final(self).canvas() == old(self).canvas(),
            final(self).calls() == old(self).calls(),
            final(self).handles() == old(self).handles() + 1,
    {
        proof {
            use_type_invariant(&*self);
        }
        let handle = self.canvas.measuring_handle();
        Ok(WebTextLayoutBuilder { canvas: handle, font: font.clone(), text: text.to_owned() })
    }
}

/// A text in a font, not measured yet, with a handle on the canvas it is to
/// be measured on.
pub struct WebTextLayoutBuilder {
    canvas: MeasuringCanvas,
    font: WebFont,
    text: String,
}

impl View for WebTextLayoutBuilder {
    type V = (FontView, Seq<char>);

    closed spec fn view(&self) -> (FontView, Seq<char>) {
        (self.font@, self.text@)
    }
}

impl WebTextLayoutBuilder {
    /// The canvas context the text is to be measured on.
    pub closed spec fn canvas(&self) -> CanvasRenderingContext2d {
        self.canvas.context()
    }

    /// The calls made on the canvas through this builder, in order.
    pub closed spec fn calls(&self) -> Seq<CanvasCall> {
        self.canvas.calls()
    }

    /// Sets the canvas's font to the font text, then measures the text, and
    /// hands back what measuring gave with the handle and its record of both
    /// calls. Whether the canvas measures it is up to the browser; a layout
    /// keeps the font and the text, and an error is the browser's own.
    pub fn build(self) -> (r: (Result<WebTextLayout, SecurityError>, MeasuringCanvas))
        ensures
            r.1.context() == self.canvas(),
            r.1.calls() == self.calls().push(CanvasCall::SetFont(font_text(self@.0))).push(
                CanvasCall::MeasureText(self@.1),
            ),
            r.0 matches Ok(layout) ==> layout@ == self@,
    {
        let WebTextLayoutBuilder { mut canvas, font, text } = self;
        let font_string = font.get_font_string();
        canvas.set_font(font_string.as_str());
        let measured = canvas.measure_text(text.as_str());
        (WebTextLayout::from_measurement(font, text, measured), canvas)
    }
}

/// A text in a font, measured on a canvas.
pub struct WebTextLayout {
    font: WebFont,
    text: String,
    metrics: TextMetrics,
}

impl View for WebTextLayout {
    type V = (FontView, Seq<char>);

    closed spec fn view(&self) -> (FontView, Seq<char>) {
        (self.font@, self.text@)
    }
}

impl WebTextLayout {
    /// What measuring the text gave.
    pub closed spec fn spec_metrics(&self) -> TextMetrics {
        self.metrics
    }

    /// The layout of the text in the font, given what measuring it gave:
    /// the metrics, or the error that measuring raised.
    pub fn from_measurement(
        font: WebFont,
        text: String,
        measured: Result<TextMetrics, SecurityError>,
    ) -> (r: Result<WebTextLayout, SecurityError>)
        ensures
            r is Ok <==> measured is Ok,
            r matches Ok(layout) ==> layout@ == (font@, text@),
            r matches Ok(layout) ==> measured == Ok::<TextMetrics, SecurityError>(
                layout.spec_metrics(),
            ),
            measured matches Err(e) ==> r == Err::<WebTextLayout, SecurityError>(e),
    {
        match measured {
            Ok(metrics) => Ok(WebTextLayout { font, text, metrics }),
            Err(e) => Err(e),
        }
    }

    /// The font of the text.
    pub fn font(&self) -> (r: &WebFont)
        ensures
            r@ == self@.0,
    {
        &self.font
    }

    /// The text.
    pub fn text(&self) -> (r: &str)
        ensures
            r@ == self@.1,
    {
        self.text.as_str()
    }

    /// What measuring the text gave.
    pub fn metrics(&self) -> (r: &TextMetrics)
        ensures
            *r == self.spec_metrics(),
    {
        &self.metrics
    }
}

/// An image drawn on an offscreen canvas, with its size in pixels.
pub struct WebImage {
    inner: Value,
    width: u32,
    height: u32,
}

impl WebImage {
    pub closed spec fn spec_inner(&self) -> Value {
        self.inner
    }

    pub closed spec fn spec_width(&self) -> u32 {
        self.width
    }

    pub closed spec fn spec_height(&self) -> u32 {
        self.height
    }

    /// The image held by the canvas `inner`, of the given size; the size is
    /// kept as `u32`, truncated as `as` truncates.
    pub fn from_canvas(inner: Value, width: usize, height: usize) -> (r: WebImage)
        ensures
            r.spec_width() == width as u32,
            r.spec_height() == height as u32,
            r.spec_inner() == inner,
    {
        WebImage { inner, width: width as u32, height: height as u32 }
    }

    /// The canvas that holds the image.
    pub fn inner(&self) -> (r: &Value)
        ensures
            *r == self.spec_inner(),
    {
        &self.inner
    }

    /// The width in pixels.
    pub fn width(&self) -> (r: u32)
        ensures
            r == self.spec_width(),
    {
        self.width
    }

    /// The height in pixels.
    pub fn height(&self) -> (r: u32)
        ensures
            r == self.spec_height(),
    {
        self.height
    }
}

} // verus!
