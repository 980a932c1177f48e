//! What painting with a brush leaves in the canvas's drawing state: a fill
//! makes the brush the fill style, a stroke makes it the stroke style, each
//! leaving the other style and the font alone; and the style a solid brush
//! sets is the CSS text of its own color, alpha included.
use vstd::prelude::*;

use crate::canvas::{CanvasCall, FillRule};
use crate::css::{
    alpha, alpha_thousandths, css_color, fixed_digits, lemma_css_color_injective,
    lemma_fixed_digits_len,
};
use crate::drawing_state::{DrawingState, replay, step};
use crate::render::{Brush, style_call};

verus! {

/// The CSS text of a color style call (empty for any other call).
pub open spec fn color_text(call: CanvasCall) -> Seq<char> {
    match call {
        CanvasCall::SetFillStyleColor(t) => t,
        CanvasCall::SetStrokeStyleColor(t) => t,
        _ => Seq::empty(),
    }
}

/// Filling with a brush (`paint_fill`, as `fill`, `fill_even_odd` and
/// `clear` do) leaves the canvas's fill style set to that brush: the fill
/// color of a solid brush's CSS text, or the brush's gradient. The stroke
/// style, the font and the saved states are as they were.
pub proof fn lemma_fill_paints_with_brush(
    before: Seq<CanvasCall>,
    brush: Brush,
    rule: FillRule,
    start: DrawingState,
)
    ensures
        ({
            let was = replay(before, start);
            let now = replay(
                before.push(style_call(brush, true)).push(CanvasCall::Fill(rule)),
                start,
            );
            &&& now.current.fill == Some(
                match brush {
                    Brush::Solid(c) => CanvasCall::SetFillStyleColor(css_color(c)),
                    Brush::Gradient(g) => CanvasCall::SetFillStyleGradient(g),
                },
            )
            &&& now.current.stroke == was.current.stroke
            &&& now.current.font == was.current.font
            &&& now.saved == was.saved
        }),
{
    let once = before.push(style_call(brush, true));
    let twice = once.push(CanvasCall::Fill(rule));
    assert(twice.drop_last() =~= once);
    assert(once.drop_last() =~= before);
    assert(replay(twice, start) == replay(once, start));
    assert(replay(once, start) == step(replay(before, start), style_call(brush, true)));
}

/// Stroking with a brush (`paint_stroke`, as `stroke` and `stroke_styled`
/// do) leaves the canvas's stroke style set to that brush: the stroke color
/// of a solid brush's CSS text, or the brush's gradient. The fill style, the
/// font and the saved states are as they were.
pub proof fn lemma_stroke_paints_with_brush(
    before: Seq<CanvasCall>,
    brush: Brush,
    start: DrawingState,
)
    ensures
        ({
            let was = replay(before, start);
            let now = replay(before.push(style_call(brush, false)).push(CanvasCall::Stroke), start);
            &&& now.current.stroke == Some(
                match brush {
                    Brush::Solid(c) => CanvasCall::SetStrokeStyleColor(css_color(c)),
                    Brush::Gradient(g) => CanvasCall::SetStrokeStyleGradient(g),
                },
            )
            &&& now.current.fill == was.current.fill
            &&& now.current.font == was.current.font
            &&& now.saved == was.saved
        }),
{
    let once = before.push(style_call(brush, false));
    let twice = once.push(CanvasCall::Stroke);
    assert(twice.drop_last() =~= once);
    assert(once.drop_last() =~= before);
    assert(replay(twice, start) == replay(once, start));
    assert(replay(once, start) == step(replay(before, start), style_call(brush, false)));
}

/// Setting a brush (`set_brush`) as fill style changes only the fill style,
/// and as stroke style only the stroke style.
pub proof fn lemma_set_brush_touches_one_style(
    before: Seq<CanvasCall>,
    brush: Brush,
    is_fill: bool,
    start: DrawingState,
)
    ensures
        ({
            let was = replay(before, start);
            let now = replay(before.push(style_call(brush, is_fill)), start);
            &&& is_fill ==> now.current.stroke == was.current.stroke && now.current.fill
                is Some
            &&& !is_fill ==> now.current.fill == was.current.fill && now.current.stroke
                is Some
            &&& now.current.font == was.current.font
            &&& now.saved == was.saved
        }),
{
    assert(before.push(style_call(brush, is_fill)).drop_last() =~= before);
}

/// Two solid brushes that set the same style are the same color: the style
/// keeps every bit of the color, alpha included.
pub proof fn lemma_solid_style_keeps_color(a: u32, b: u32, is_fill: bool)
    requires
        style_call(Brush::Solid(a), is_fill) == style_call(Brush::Solid(b), is_fill),
    ensures
        a == b,
{
    assert(color_text(style_call(Brush::Solid(a), is_fill)) == css_color(a));
    assert(color_text(style_call(Brush::Solid(b), is_fill)) == css_color(b));
    lemma_css_color_injective(a, b);
}

/// The style text of a solid brush: an opaque color is `#` and six hex
/// digits of its red, green and blue; any other is `rgba(...)` ending in
/// `,0.ddd)`, where `ddd` is its alpha byte over 255 in thousandths, so a
/// translucent color is never painted opaque.
pub proof fn lemma_solid_style_text(c: u32, is_fill: bool)
    ensures
        ({
            let t = color_text(style_call(Brush::Solid(c), is_fill));
            let d = fixed_digits(alpha_thousandths(alpha(c)), 10, 3);
            &&& alpha(c) == 255 ==> t == seq!['#'] + fixed_digits((c as nat) / 256, 16, 6)
            &&& alpha(c) != 255 ==> t.take(5) == seq!['r', 'g', 'b', 'a', '(']
                && t.skip(t.len() - 7) == seq![',', '0', '.'] + d + seq![')']
        }),
{
    let t = color_text(style_call(Brush::Solid(c), is_fill));
    assert(t == css_color(c));
    if alpha(c) != 255 {
        let d = fixed_digits(alpha_thousandths(alpha(c)), 10, 3);
        lemma_fixed_digits_len(alpha_thousandths(alpha(c)), 10, 3);
        assert(t.take(5) =~= seq!['r', 'g', 'b', 'a', '(']);
        assert(t.skip(t.len() - 7) =~= seq![',', '0', '.'] + d + seq![')']);
    }
}

} // verus!
