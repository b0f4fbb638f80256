//! The glow of the button's shell: where the exposure stands between cold
//! and firing, shown as a colour of the magma ramp.
use vstd::prelude::*;
use crate::exposure::UNIT;

verus! {

/// A colour with 16 bits to the channel.
#[derive(Clone, Copy, Debug, PartialEq, Eq, Structural)]
pub struct Rgba {
    /// Red.
    pub r: u16,
    /// Green.
    pub g: u16,
    /// Blue.
    pub b: u16,
    /// Opacity.
    pub a: u16,
}

/// Number of colours that the ramp is sampled at: one for every thousandth
/// of the way from cold to firing, both ends included.
pub const RAMP_STEPS: usize = 1001;

/// The magma ramp sampled at `count` evenly spaced places from its first
/// colour to its last, as `colorgrad` computes it.
pub uninterp spec fn magma_colors(count: int) -> Seq<Rgba>;

/// Samples the magma ramp by `colorgrad::magma().colors(count)`, each colour
/// taken by `to_rgba16`. The contract names the result and claims that it
/// has `count` colours; the colours themselves are not stated.
#[verifier::external_body]
fn magma_ramp(count: usize) -> (r: Vec<Rgba>)
    ensures
        r@ == magma_colors(count as int),
        r@.len() == count,
{
    colorgrad::magma().colors(count).iter().map(
        |c| {
            let [r, g, b, a] = c.to_rgba16();
            Rgba { r, g, b, a }
        },
    ).collect()
}

/// The place on a ramp of `steps` colours that shows `exposure`: the
/// fraction of one that the exposure has reached, rounded down to a step.
pub open spec fn ramp_index(exposure: int, steps: int) -> int {
    exposure * (steps - 1) / (UNIT as int)
}

/// The colour in which a shell at `exposure` glows on the ramp `ramp`: none
/// while it is cold or firing, or if the ramp is empty.
pub open spec fn glow(exposure: int, ramp: Seq<Rgba>) -> Option<Rgba> {
    if 0 < exposure <= UNIT && ramp.len() > 0 {
        Some(ramp[ramp_index(exposure, ramp.len() as int)])
    } else {
        None
    }
}

/// Picks from `ramp` the colour in which a shell at `exposure` glows.
pub fn glow_on(exposure: u128, ramp: &Vec<Rgba>) -> (r: Option<Rgba>)
    ensures
        r == glow(exposure as int, ramp@),
{
    if exposure == 0 || exposure > UNIT as u128 || ramp.len() == 0 {
        return None;
    }
    let last: usize = ramp.len() - 1;
    assert(exposure * last <= UNIT * last) by (nonlinear_arith)
        requires
            exposure <= UNIT,
            last >= 0,
    ;
    assert(UNIT * last <= 0xffff_ffff_ffff_ffff * 0xffff_ffff_ffff_ffff) by (nonlinear_arith)
        requires
            UNIT <= 0xffff_ffff_ffff_ffff,
            last <= 0xffff_ffff_ffff_ffff,
    ;
    let index: u128 = exposure * (last as u128) / (UNIT as u128);
    assert(index <= last) by (nonlinear_arith)
        requires
            index == (exposure * last) / (UNIT as int),
            exposure * last <= UNIT * last,
            UNIT > 0,
            last >= 0,
    ;
    Some(ramp[index as usize])
}

/// The colour of the magma ramp in which a shell at `exposure` glows.
pub fn magma_glow(exposure: u128) -> (r: Option<Rgba>)
    ensures
        r == glow(exposure as int, magma_colors(RAMP_STEPS as int)),
        r.is_some() <==> 0 < exposure <= UNIT,
{
    let ramp = magma_ramp(RAMP_STEPS);
    glow_on(exposure, &ramp)
}

} // verus!
