//! What recorded canvas calls leave in the canvas's drawing state, as the
//! HTML canvas defines `save` and `restore`: `save` pushes a copy of the
//! drawing state on a stack, `restore` pops the last copy back and does
//! nothing when the stack is empty. Only the parts of the state that this
//! library sets are followed: fill style, stroke style and font.
use vstd::prelude::*;

use crate::canvas::CanvasCall;

verus! {

/// The fill style, stroke style and font of a drawing state, each as what
/// the last recorded call that set it gave (`None` where no recorded call
/// set it).
pub ghost struct StyleState {
    pub fill: Option<CanvasCall>,
    pub stroke: Option<CanvasCall>,
    pub font: Option<Seq<char>>,
}

/// The current drawing state, and the stack of states that `save` pushed.
pub ghost struct DrawingState {
    pub current: StyleState,
    pub saved: Seq<StyleState>,
}

/// The drawing state after one call.
pub open spec fn step(st: DrawingState, call: CanvasCall) -> DrawingState {
    let cur = st.current;
    match call {
        CanvasCall::SetFillStyleColor(_) | CanvasCall::SetFillStyleGradient(_) => DrawingState {
            current: StyleState { fill: Some(call), stroke: cur.stroke, font: cur.font },
            saved: st.saved,
        },
        CanvasCall::SetStrokeStyleColor(_) | CanvasCall::SetStrokeStyleGradient(_) => DrawingState {
            current: StyleState { fill: cur.fill, stroke: Some(call), font: cur.font },
            saved: st.saved,
        },
        CanvasCall::SetFont(f) => DrawingState {
            current: StyleState { fill: cur.fill, stroke: cur.stroke, font: Some(f) },
            saved: st.saved,
        },
        CanvasCall::Save => DrawingState { current: cur, saved: st.saved.push(cur) },
        CanvasCall::Restore => if st.saved.len() > 0 {
            DrawingState { current: st.saved.last(), saved: st.saved.drop_last() }
        } else {
            st
        },
        _ => st,
    }
}

/// The drawing state after the calls, one after the other, from `start`.
pub open spec fn replay(calls: Seq<CanvasCall>, start: DrawingState) -> DrawingState
    decreases calls.len(),
{
    if calls.len() == 0 {
        start
    } else {
        step(replay(calls.drop_last(), start), calls.last())
    }
}

/// How many more `save` than `restore` calls there are.
pub open spec fn opens(calls: Seq<CanvasCall>) -> int
    decreases calls.len(),
{
    if calls.len() == 0 {
        0
    } else {
        opens(calls.drop_last()) + match calls.last() {
            CanvasCall::Save => 1int,
            CanvasCall::Restore => -1int,
            _ => 0int,
        }
    }
}

/// No prefix of the calls restores more than it saved.
pub open spec fn never_pops_below(calls: Seq<CanvasCall>) -> bool {
    forall|k: int| 0 <= k <= calls.len() ==> opens(#[trigger] calls.take(k)) >= 0
}

/// Every `save` among the calls is matched by a later `restore`, and no
/// `restore` pops a state that they did not push.
pub open spec fn balanced(calls: Seq<CanvasCall>) -> bool {
    never_pops_below(calls) && opens(calls) == 0
}

proof fn lemma_replay_append(a: Seq<CanvasCall>, b: Seq<CanvasCall>, start: DrawingState)
    ensures
        replay(a + b, start) == replay(b, replay(a, start)),
    decreases b.len(),
{
    if b.len() == 0 {
        assert(a + b =~= a);
    } else {
        assert((a + b).drop_last() =~= a + b.drop_last());
        assert((a + b).last() == b.last());
        lemma_replay_append(a, b.drop_last(), start);
    }
}

/// Calls that never pop below where they started keep the states saved
/// before them, and leave `opens` more on top.
proof fn lemma_saved_kept(m: Seq<CanvasCall>, start: DrawingState)
    requires
        never_pops_below(m),
    ensures
        replay(m, start).saved.len() == start.saved.len() + opens(m),
        replay(m, start).saved.subrange(0, start.saved.len() as int) == start.saved,
    decreases m.len(),
{
    let n = start.saved.len() as int;
    if m.len() == 0 {
        assert(start.saved.subrange(0, n) =~= start.saved);
    } else {
        let p = m.drop_last();
        assert forall|k: int| 0 <= k <= p.len() implies opens(#[trigger] p.take(k)) >= 0 by {
            assert(p.take(k) =~= m.take(k));
        }
        lemma_saved_kept(p, start);
        assert(m.take(m.len() as int) =~= m);
        let t = replay(p, start);
        match m.last() {
            CanvasCall::Save => {
                assert(t.saved.push(t.current).subrange(0, n) =~= t.saved.subrange(0, n));
            },
            CanvasCall::Restore => {
                assert(t.saved.drop_last().subrange(0, n) =~= t.saved.subrange(0, n));
            },
            _ => {},
        }
    }
}

/// `restore` brings back the drawing state that the matching `save` kept:
/// after `save`, any calls in which every `save` is matched by a `restore`,
/// and `restore`, the drawing state and its stack are as before the `save`.
pub proof fn lemma_restore_brings_back(
    before: Seq<CanvasCall>,
    between: Seq<CanvasCall>,
    start: DrawingState,
)
    requires
        balanced(between),
    ensures
        replay(before.push(CanvasCall::Save) + between + seq![CanvasCall::Restore], start)
            == replay(before, start),
{
    let st = replay(before, start);
    let saved_now = before.push(CanvasCall::Save);
    assert(saved_now.drop_last() =~= before);
    let s1 = replay(saved_now, start);
    assert(s1 == DrawingState { current: st.current, saved: st.saved.push(st.current) });
    lemma_replay_append(saved_now, between, start);
    lemma_saved_kept(between, s1);
    let s2 = replay(saved_now + between, start);
    assert(s2.saved =~= s1.saved);
    let all = saved_now + between + seq![CanvasCall::Restore];
    assert(all.drop_last() =~= saved_now + between);
    assert(s1.saved.drop_last() =~= st.saved);
}

} // verus!
