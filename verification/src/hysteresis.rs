//! What the button's exposure does over many frames: it cools to nothing
//! when left alone, fires under sustained pressing, and forgets a touch that
//! was too brief to fire.
use vstd::prelude::*;
use crate::close_button::{
    gamma_sum, presses, pressing, ButtonState, InputKind, InputSample, FLASH, SELECT_THRESHOLD,
};
use crate::exposure::{cooled, exposed, UNIT};

verus! {

/// One frame as the button sees it: the inputs reported and the time passed.
pub struct Tick {
    /// The inputs that the field reports in this frame.
    pub inputs: Seq<InputSample>,
    /// Time since the frame before, in microseconds.
    pub delta: u64,
}

/// The rate at which the inputs of `tick` expose the button.
pub open spec fn rate(button: ButtonState, tick: Tick) -> int {
    button.rate(tick.inputs)
}

/// The exposure after the frame `tick`, starting from `exposure`, with the
/// cooling, cap and panel of `button`. Starting from the button's own
/// exposure this is `button.exposure_after(tick.inputs, tick.delta)`, the
/// exposure that the frame leaves the button with.
pub open spec fn after_tick(button: ButtonState, exposure: int, tick: Tick) -> int {
    button.exposure_from(exposure, tick.inputs, tick.delta)
}

/// The exposure after the frames `ticks` in turn, starting from `exposure`.
pub open spec fn after_ticks(button: ButtonState, exposure: int, ticks: Seq<Tick>) -> int
    decreases ticks.len(),
{
    if ticks.len() == 0 {
        exposure
    } else {
        after_tick(button, after_ticks(button, exposure, ticks.drop_last()), ticks.last())
    }
}

/// Whether no input presses in the frame `tick`.
pub open spec fn idle(tick: Tick) -> bool {
    pressing(tick.inputs).len() == 0
}

/// Whether some input presses in the frame `tick`, at a summed rate that is
/// no less than the cooling.
pub open spec fn sustained(button: ButtonState, tick: Tick) -> bool {
    &&& pressing(tick.inputs).len() >= 1
    &&& rate(button, tick) >= button.exposure.cooling
}

/// The time that the frames `ticks` take together, in microseconds.
pub open spec fn elapsed(ticks: Seq<Tick>) -> nat
    decreases ticks.len(),
{
    if ticks.len() == 0 {
        0
    } else {
        elapsed(ticks.drop_last()) + ticks.last().delta as nat
    }
}

/// A frame without pressing input only cools: the exposure does not rise,
/// does not fall below zero, and loses all that the cooling takes unless
/// it reaches zero first.
pub proof fn lemma_idle_tick_cools(button: ButtonState, exposure: int, tick: Tick)
    requires
        button.wf(),
        exposure >= 0,
        idle(tick),
    ensures
        after_tick(button, exposure, tick) == cooled(
            exposure,
            button.exposure.cooling as int,
            button.exposure.max as int,
            tick.delta as int,
        ),
        0 <= after_tick(button, exposure, tick) <= exposure,
        after_tick(button, exposure, tick) <= exposure - button.exposure.cooling * tick.delta
            || after_tick(button, exposure, tick) == 0,
{
    let c = button.exposure.cooling as int;
    let d = tick.delta as int;
    assert(gamma_sum(pressing(tick.inputs)) == 0);
    assert(rate(button, tick) == 0) by (nonlinear_arith)
        requires
            rate(button, tick) == (0 * 2 * 1_000_000) as int / (
            button.toplevel_thickness as int),
            button.toplevel_thickness > 0,
    ;
    assert(c * d >= 0) by (nonlinear_arith)
        requires
            c >= 0,
            d >= 0,
    ;
    assert(0 * d == 0) by (nonlinear_arith);
    assert(FLASH * 0 == 0) by (nonlinear_arith);
}

/// Left alone, the exposure never rises from one frame to the next, is zero
/// once the cooling over the time passed has taken all of it, and stays zero
/// once it is zero.
pub proof fn lemma_idle_frames_cool_to_zero(button: ButtonState, exposure: int, ticks: Seq<Tick>)
    requires
        button.wf(),
        exposure >= 0,
        forall|i: int| 0 <= i < ticks.len() ==> idle(#[trigger] ticks[i]),
    ensures
        0 <= after_ticks(button, exposure, ticks) <= exposure,
        forall|k: int|
            0 <= k < ticks.len() ==> after_ticks(button, exposure, #[trigger] ticks.take(k + 1))
                <= after_ticks(button, exposure, ticks.take(k)),
        after_ticks(button, exposure, ticks) <= exposure - button.exposure.cooling * elapsed(ticks)
            || after_ticks(button, exposure, ticks) == 0,
        button.exposure.cooling * elapsed(ticks) >= exposure ==> after_ticks(
            button,
            exposure,
            ticks,
        ) == 0,
        exposure == 0 ==> after_ticks(button, exposure, ticks) == 0,
    decreases ticks.len(),
{
    if ticks.len() == 0 {
        assert(button.exposure.cooling * elapsed(ticks) == 0) by (nonlinear_arith)
            requires
                elapsed(ticks) == 0,
        ;
    } else {
        let front = ticks.drop_last();
        let last = ticks.last();
        lemma_idle_frames_cool_to_zero(button, exposure, front);
        let before = after_ticks(button, exposure, front);
        lemma_idle_tick_cools(button, before, last);
        assert(button.exposure.cooling * elapsed(ticks) == button.exposure.cooling * elapsed(front)
            + button.exposure.cooling * last.delta) by (nonlinear_arith)
            requires
                elapsed(ticks) == elapsed(front) + last.delta as nat,
        ;
        assert(button.exposure.cooling * last.delta >= 0) by (nonlinear_arith);
        assert forall|k: int| 0 <= k < ticks.len() implies after_ticks(
            button,
            exposure,
            #[trigger] ticks.take(k + 1),
        ) <= after_ticks(button, exposure, ticks.take(k)) by {
            if k < ticks.len() - 1 {
                assert(ticks.take(k + 1) =~= front.take(k + 1));
                assert(ticks.take(k) =~= front.take(k));
            } else {
                assert(ticks.take(k + 1) =~= ticks);
                assert(ticks.take(k) =~= front);
            }
        }
    }
}

/// A frame of sustained pressing lifts the exposure by at least one flash
/// above where it stood, or above the cap if it stood higher.
pub proof fn lemma_sustained_tick_rises(button: ButtonState, exposure: int, tick: Tick)
    requires
        button.wf(),
        exposure >= 0,
        sustained(button, tick),
    ensures
        after_tick(button, exposure, tick) >= exposure + FLASH || after_tick(
            button,
            exposure,
            tick,
        ) >= button.exposure.max + FLASH,
{
    let c = button.exposure.cooling as int;
    let m = button.exposure.max as int;
    let d = tick.delta as int;
    let r = rate(button, tick);
    let n = pressing(tick.inputs).len() as int;
    assert(r * d >= c * d) by (nonlinear_arith)
        requires
            r >= c,
            d >= 0,
    ;
    assert(c * d >= 0) by (nonlinear_arith)
        requires
            c >= 0,
            d >= 0,
    ;
    assert(FLASH * n >= FLASH) by (nonlinear_arith)
        requires
            n >= 1,
    ;
    let cool = cooled(exposure, c, m, d);
    assert(exposed(cool, m, r, d) >= exposure || exposed(cool, m, r, d) >= m);
}

/// Under sustained pressing the button fires: whatever the exposure was,
/// after five frames in a row of pressing at a rate no less than the
/// cooling it stands above one, provided the cap is no less than one.
pub proof fn lemma_sustained_pressing_fires(button: ButtonState, exposure: int, ticks: Seq<Tick>)
    requires
        button.wf(),
        exposure >= 0,
        button.exposure.max >= UNIT,
        ticks.len() >= 5,
        forall|i: int| 0 <= i < ticks.len() ==> sustained(button, #[trigger] ticks[i]),
    ensures
        after_ticks(button, exposure, ticks) > UNIT,
{
    lemma_sustained_frames_rise(button, exposure, ticks);
    assert(FLASH * 5 > UNIT);
    assert(FLASH * ticks.len() >= FLASH * 5) by (nonlinear_arith)
        requires
            ticks.len() >= 5,
    ;
}

/// Frames of sustained pressing lift the exposure by a flash each until it
/// stands a flash above the cap.
pub proof fn lemma_sustained_frames_rise(button: ButtonState, exposure: int, ticks: Seq<Tick>)
    requires
        button.wf(),
        exposure >= 0,
        forall|i: int| 0 <= i < ticks.len() ==> sustained(button, #[trigger] ticks[i]),
    ensures
        after_ticks(button, exposure, ticks) >= 0,
        after_ticks(button, exposure, ticks) >= FLASH * ticks.len() || (ticks.len() > 0
            && after_ticks(button, exposure, ticks) >= button.exposure.max + FLASH),
    decreases ticks.len(),
{
    if ticks.len() == 0 {
        assert(FLASH * 0 == 0) by (nonlinear_arith);
    } else {
        let front = ticks.drop_last();
        lemma_sustained_frames_rise(button, exposure, front);
        let before = after_ticks(button, exposure, front);
        lemma_sustained_tick_rises(button, before, ticks.last());
        assert(FLASH * ticks.len() == FLASH * front.len() + FLASH) by (nonlinear_arith)
            requires
                ticks.len() == front.len() + 1,
        ;
    }
}

/// A touch too brief to fire is forgotten: if the frame of the touch leaves
/// the exposure at `touched`, no higher than one, then through all idle
/// frames that follow the button never fires, and the exposure is zero once
/// the cooling has taken all of it.
pub proof fn lemma_momentary_touch_fades(
    button: ButtonState,
    exposure: int,
    touch: Tick,
    ticks: Seq<Tick>,
)
    requires
        button.wf(),
        exposure >= 0,
        after_tick(button, exposure, touch) <= UNIT,
        forall|i: int| 0 <= i < ticks.len() ==> idle(#[trigger] ticks[i]),
    ensures
        forall|k: int|
            0 <= k <= ticks.len() ==> 0 <= after_ticks(
                button,
                after_tick(button, exposure, touch),
                #[trigger] ticks.take(k),
            ) <= UNIT,
        button.exposure.cooling * elapsed(ticks) >= after_tick(button, exposure, touch)
            ==> after_ticks(button, after_tick(button, exposure, touch), ticks) == 0,
        after_ticks(button, exposure, seq![touch] + ticks) == after_ticks(
            button,
            after_tick(button, exposure, touch),
            ticks,
        ),
{
    let touched = after_tick(button, exposure, touch);
    lemma_after_tick_nonnegative(button, exposure, touch);
    lemma_idle_frames_cool_to_zero(button, touched, ticks);
    assert forall|k: int| 0 <= k <= ticks.len() implies 0 <= after_ticks(
        button,
        touched,
        #[trigger] ticks.take(k),
    ) <= UNIT by {
        let head = ticks.take(k);
        assert forall|i: int| 0 <= i < head.len() implies idle(#[trigger] head[i]) by {
            assert(head[i] == ticks[i]);
        }
        lemma_idle_frames_cool_to_zero(button, touched, head);
    }
    lemma_after_ticks_first(button, exposure, touch, ticks);
}

/// A frame never leaves the exposure below zero.
pub proof fn lemma_after_tick_nonnegative(button: ButtonState, exposure: int, tick: Tick)
    requires
        button.wf(),
    ensures
        after_tick(button, exposure, tick) >= 0,
{
    let n = pressing(tick.inputs).len() as int;
    let r = rate(button, tick);
    let d = tick.delta as int;
    assert(FLASH * n >= 0) by (nonlinear_arith)
        requires
            n >= 0,
    ;
    assert(r >= 0) by (nonlinear_arith)
        requires
            r == (gamma_sum(pressing(tick.inputs)) * 2 * 1_000_000) as int / (
            button.toplevel_thickness as int),
            gamma_sum(pressing(tick.inputs)) >= 0,
            button.toplevel_thickness > 0,
    ;
    assert(r * d >= 0) by (nonlinear_arith)
        requires
            r >= 0,
            d >= 0,
    ;
}

/// Running a frame and then more frames is running them all in turn.
pub proof fn lemma_after_ticks_first(
    button: ButtonState,
    exposure: int,
    first: Tick,
    rest: Seq<Tick>,
)
    ensures
        after_ticks(button, exposure, seq![first] + rest) == after_ticks(
            button,
            after_tick(button, exposure, first),
            rest,
        ),
    decreases rest.len(),
{
    let all = seq![first] + rest;
    if rest.len() == 0 {
        assert(all.drop_last() =~= Seq::<Tick>::empty());
        assert(all.last() == first);
        assert(after_ticks(button, exposure, all.drop_last()) == exposure);
    } else {
        lemma_after_ticks_first(button, exposure, first, rest.drop_last());
        assert(all.drop_last() =~= seq![first] + rest.drop_last());
        assert(all.last() == rest.last());
    }
}

/// A pointer that is inside the field but does not select past the
/// threshold does not press, whereas a hand or a tip inside the field
/// presses whatever its select value is.
pub proof fn lemma_pointer_needs_select(sample: InputSample)
    ensures
        sample.kind == InputKind::Pointer && sample.select <= SELECT_THRESHOLD ==> !presses(sample),
        sample.kind == InputKind::Pointer ==> (presses(sample) <==> sample.distance < 0
            && sample.select > SELECT_THRESHOLD),
        sample.kind != InputKind::Pointer ==> (presses(sample) <==> sample.distance < 0),
{
}

/// An input that does not press leaves the pressing inputs and their summed
/// depth as they are; one that presses joins them at the end.
pub proof fn lemma_pressing_push(inputs: Seq<InputSample>, sample: InputSample)
    ensures
        !presses(sample) ==> pressing(inputs.push(sample)) == pressing(inputs),
        !presses(sample) ==> gamma_sum(pressing(inputs.push(sample))) == gamma_sum(
            pressing(inputs),
        ),
        presses(sample) ==> pressing(inputs.push(sample)) == pressing(inputs).push(sample),
{
    assert(inputs.push(sample).drop_last() =~= inputs);
}

} // verus!
