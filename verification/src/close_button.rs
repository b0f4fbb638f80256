//! The exposure button: a push-button that fires only after input has
//! pressed into it hard enough or long enough to outrun its cooling.
use vstd::prelude::*;
use vstd::std_specs::cmp::PartialEqSpecImpl;
use mint::Vector3;
use crate::emission::{glow, magma_colors, magma_glow, Rgba, RAMP_STEPS};
use crate::exposure::{cooled, exposed, Exposure, MICRO, UNIT};
use crate::gamma::{gamma, gamma_corrected, magnitude};
use crate::geometry::{Transform, ONE};

verus! {

/// Default thickness of a surface's panel in micrometres; the deeper the
/// panel, the less a given pressing depth counts.
pub const TOPLEVEL_THICKNESS: u64 = 10_000;

/// Scale of the button's model across its face, in millionths.
pub const FACE_SCALE: i64 = 25_000;

/// Half-width of the button's field in micrometres, half again as wide as
/// the face.
pub const FIELD_WIDTH: i64 = 37_500;

/// How fast a button cools, in millionths per second.
pub const COOLING: u64 = 5_000_000;

/// What an auxiliary "select" value of a pointer must exceed for the pointer
/// to press, in millionths.
pub const SELECT_THRESHOLD: i64 = 500_000;

/// What each pressing input adds to the exposure in every frame, in steps of
/// 10^-12: a quarter.
pub const FLASH: u64 = 250_000_000_000;

/// The kinds of input that reach a button.
#[derive(Clone, Copy, Debug, PartialEq, Eq, Structural)]
pub enum InputKind {
    /// A ray cast from afar, which presses only while it selects.
    Pointer,
    /// A tracked hand.
    Hand,
    /// The tip of a tool.
    Tip,
}

/// One input as a button's field reports it in one frame.
#[derive(Clone, Copy, Debug)]
pub struct InputSample {
    /// Signed distance to the field in micrometres, negative inside.
    pub distance: i64,
    /// The kind of input.
    pub kind: InputKind,
    /// The auxiliary "select" value in millionths; zero where none is sent.
    pub select: i64,
}

/// What a frame brings besides input.
#[derive(Clone, Copy, Debug)]
pub struct FrameInfo {
    /// Time since the last frame in microseconds.
    pub delta: u64,
}

/// Whether an input presses the button: it is inside the field and, if it
/// is a pointer, it selects as well.
pub open spec fn presses(sample: InputSample) -> bool {
    &&& sample.distance < 0
    &&& sample.kind == InputKind::Pointer ==> sample.select > SELECT_THRESHOLD
}

/// The inputs among `inputs` that press, in their order.
pub open spec fn pressing(inputs: Seq<InputSample>) -> Seq<InputSample>
    decreases inputs.len(),
{
    if inputs.len() == 0 {
        Seq::empty()
    } else if presses(inputs.last()) {
        pressing(inputs.drop_last()).push(inputs.last())
    } else {
        pressing(inputs.drop_last())
    }
}

/// The sum of the gamma-corrected depths of `samples`, in millionths.
pub open spec fn gamma_sum(samples: Seq<InputSample>) -> nat
    decreases samples.len(),
{
    if samples.len() == 0 {
        0
    } else {
        gamma_sum(samples.drop_last()) + gamma(magnitude(samples.last().distance as int))
    }
}

/// The rate at which a summed depth of `sum` exposes a button on a panel of
/// the given thickness: `sum * 2 / thickness`, in millionths per second,
/// rounded down.
pub open spec fn exposure_rate(sum: nat, toplevel_thickness: nat) -> nat {
    sum * 2 * (MICRO as nat) / toplevel_thickness
}

/// The exposure after one frame of `delta` microseconds in which `count`
/// inputs press at a summed rate of `rate`: cooled first, then exposed up to
/// the cap, then flashed.
pub open spec fn stepped(
    exposure: int,
    cooling: int,
    max: int,
    rate: int,
    count: int,
    delta: int,
) -> int {
    exposed(cooled(exposure, cooling, max, delta), max, rate, delta) + FLASH * count
}

/// Whether an input presses the button.
pub fn is_pressing(sample: &InputSample) -> (r: bool)
    ensures
        r == presses(*sample),
{
    sample.distance < 0 && match sample.kind {
        InputKind::Pointer => sample.select > SELECT_THRESHOLD,
        _ => true,
    }
}

/// The exposure rate of a summed depth, or a rate beyond any cap where the
/// true rate does not fit.
fn rate_of(sum: u128, toplevel_thickness: u64) -> (r: u128)
    requires
        toplevel_thickness > 0,
    ensures
        r == exposure_rate(sum as nat, toplevel_thickness as nat) || (r
            >= 0x1_0000_0000_0000_0000u128 && exposure_rate(
            sum as nat,
            toplevel_thickness as nat,
        ) >= 0x1_0000_0000_0000_0000u128),
{
    if sum > u128::MAX / 2_000_000 {
        assert(sum as nat * 2 * (MICRO as nat) / (toplevel_thickness as nat)
            >= 0x1_0000_0000_0000_0000u128) by (nonlinear_arith)
            requires
                sum as nat * 2 * (MICRO as nat) >= 0x1_0000_0000_0000_0000_0000_0000_0000_0000,
                0 < toplevel_thickness as nat <= 0xffff_ffff_ffff_ffff,
        ;
        u128::MAX
    } else {
        let scaled: u128 = sum * 2_000_000;
        assert(scaled == sum as nat * 2 * (MICRO as nat)) by (nonlinear_arith)
            requires
                scaled == sum * 2_000_000,
                MICRO == 1_000_000,
        ;
        scaled / (toplevel_thickness as u128)
    }
}

/// Any two rates beyond the largest cap expose alike.
proof fn lemma_exposed_beyond_cap(exposure: int, max: int, a: int, b: int, delta: int)
    requires
        0 <= max < 0x1_0000_0000_0000_0000,
        0 <= exposure,
        a >= 0x1_0000_0000_0000_0000,
        b >= 0x1_0000_0000_0000_0000,
        delta >= 0,
    ensures
        exposed(exposure, max, a, delta) == exposed(exposure, max, b, delta),
{
    if delta == 0 {
        assert(a * delta == 0 && b * delta == 0) by (nonlinear_arith)
            requires
                delta == 0,
        ;
    } else {
        assert(a * delta >= 0x1_0000_0000_0000_0000 && b * delta >= 0x1_0000_0000_0000_0000)
            by (nonlinear_arith)
            requires
                a >= 0x1_0000_0000_0000_0000,
                b >= 0x1_0000_0000_0000_0000,
                delta >= 1,
        ;
    }
}

/// The running state of a button.
#[derive(Debug)]
pub struct ExposureButtonInner {
    /// Transform of the button's root.
    pub root: Transform,
    /// Transform of the button's model.
    pub model: Transform,
    /// Half-extent of the box field in micrometres. It is given in full
    /// because the field itself is never scaled.
    pub field_extent: Vector3<i64>,
    /// Transform of the field, which undoes the model's scale.
    pub field: Transform,
    /// The accumulator that decides when the button fires.
    pub exposure: Exposure,
    /// The inputs that pressed in the last frame.
    pub pressing: Vec<InputSample>,
    /// Whether the model is shown and input is taken.
    pub enabled: bool,
    /// Thickness of the panel the button sits on, in micrometres; never zero.
    pub toplevel_thickness: u64,
}

/// The running state of a button as a value: the fields of
/// `ExposureButtonInner`, the pressing inputs as a sequence.
pub struct ButtonState {
    /// Transform of the button's root.
    pub root: Transform,
    /// Transform of the button's model.
    pub model: Transform,
    /// Half-extent of the box field in micrometres.
    pub field_extent: Vector3<i64>,
    /// Transform of the field.
    pub field: Transform,
    /// The accumulator that decides when the button fires.
    pub exposure: Exposure,
    /// The inputs that pressed in the last frame.
    pub pressing: Seq<InputSample>,
    /// Whether the model is shown and input is taken.
    pub enabled: bool,
    /// Thickness of the panel the button sits on, in micrometres.
    pub toplevel_thickness: u64,
}

impl View for ExposureButtonInner {
    type V = ButtonState;

    open spec fn view(&self) -> ButtonState {
        ButtonState {
            root: self.root,
            model: self.model,
            field_extent: self.field_extent,
            field: self.field,
            exposure: self.exposure,
            pressing: self.pressing@,
            enabled: self.enabled,
            toplevel_thickness: self.toplevel_thickness,
        }
    }
}

impl ButtonState {
    /// Whether the panel thickness is usable.
    pub open spec fn wf(self) -> bool {
        self.toplevel_thickness > 0
    }

    /// The state of a button as it is created: the model scaled to the
    /// button's face and shell, the field half again as wide as the face
    /// and at unit scale, the accumulator cold, nothing pressing, enabled.
    pub open spec fn created(transform: Transform, thickness: i64, toplevel_thickness: u64)
        -> ButtonState {
        ButtonState {
            root: transform,
            model: Transform {
                position: None,
                rotation: None,
                scale: Some(Vector3 { x: FACE_SCALE, y: FACE_SCALE, z: thickness }),
            },
            field_extent: Vector3 { x: FIELD_WIDTH, y: FACE_SCALE, z: thickness },
            field: Transform {
                position: None,
                rotation: None,
                scale: Some(Vector3 { x: ONE, y: ONE, z: ONE }),
            },
            exposure: Exposure { exposure: 0, cooling: COOLING, max: UNIT },
            pressing: Seq::empty(),
            enabled: true,
            toplevel_thickness,
        }
    }

    /// The rate at which `inputs` expose this button, in millionths per
    /// second.
    pub open spec fn rate(self, inputs: Seq<InputSample>) -> int {
        exposure_rate(gamma_sum(pressing(inputs)), self.toplevel_thickness as nat) as int
    }

    /// What a frame of `delta` microseconds with the given inputs makes of
    /// an exposure of `exposure`, with this button's cooling, cap and panel.
    pub open spec fn exposure_from(self, exposure: int, inputs: Seq<InputSample>, delta: u64)
        -> int {
        stepped(
            exposure,
            self.exposure.cooling as int,
            self.exposure.max as int,
            self.rate(inputs),
            pressing(inputs).len() as int,
            delta as int,
        )
    }

    /// The exposure of this button after a frame of `delta` microseconds
    /// with the given inputs.
    pub open spec fn exposure_after(self, inputs: Seq<InputSample>, delta: u64) -> int {
        self.exposure_from(self.exposure.exposure as int, inputs, delta)
    }

    /// Whether the button is firing.
    pub open spec fn firing(self) -> bool {
        self.exposure.exposure > UNIT
    }
}

impl ExposureButtonInner {
    /// Whether the panel thickness is usable.
    pub open spec fn wf(&self) -> bool {
        self@.wf()
    }

    /// Creates the state of a button with the given root transform and
    /// shell thickness, on a panel of the default thickness.
    pub fn new(transform: Transform, thickness: i64) -> (r: ExposureButtonInner)
        ensures
            r@ == ButtonState::created(transform, thickness, TOPLEVEL_THICKNESS),
            r.wf(),
    {
        Self::build(transform, thickness, TOPLEVEL_THICKNESS)
    }

    /// Creates the state of a button on a panel of the given thickness,
    /// which must not be zero.
    pub fn with_toplevel_thickness(
        transform: Transform,
        thickness: i64,
        toplevel_thickness: u64,
    ) -> (r: Option<ExposureButtonInner>)
        ensures
            toplevel_thickness == 0 <==> r.is_none(),
            toplevel_thickness > 0 ==> r.unwrap()@ == ButtonState::created(
                transform,
                thickness,
                toplevel_thickness,
            ),
    {
        if toplevel_thickness == 0 {
            None
        } else {
            Some(Self::build(transform, thickness, toplevel_thickness))
        }
    }

    fn build(transform: Transform, thickness: i64, toplevel_thickness: u64) -> (r:
        ExposureButtonInner)
        requires
            toplevel_thickness > 0,
        ensures
            r@ == ButtonState::created(transform, thickness, toplevel_thickness),
            r.wf(),
    {
        ExposureButtonInner {
            root: transform,
            model: Transform::from_scale(Vector3 { x: FACE_SCALE, y: FACE_SCALE, z: thickness }),
            field_extent: Vector3 { x: FIELD_WIDTH, y: FACE_SCALE, z: thickness },
            field: Transform::from_scale(Vector3 { x: ONE, y: ONE, z: ONE }),
            exposure: Exposure { exposure: 0, cooling: COOLING, max: UNIT },
            pressing: Vec::new(),
            enabled: true,
            toplevel_thickness,
        }
    }

    /// Advances the button by one frame: notes which inputs press, cools,
    /// exposes by their summed gamma-corrected depth, and flashes by their
    /// number. Returns whether the button fires in this frame.
    pub fn frame(&mut self, frame_info: &FrameInfo, inputs: &Vec<InputSample>) -> (activated:
        bool)
        requires
            old(self).wf(),
        ensures
            final(self).exposure.exposure == old(self)@.exposure_after(inputs@, frame_info.delta),
            final(self)@ == (ButtonState {
                pressing: pressing(inputs@),
                exposure: Exposure {
                    exposure: final(self).exposure.exposure,
                    ..old(self).exposure
                },
                ..old(self)@
            }),
            activated == final(self)@.firing(),
    {
        let mut held: Vec<InputSample> = Vec::new();
        let mut sum: u128 = 0;
        let mut i: usize = 0;
        proof {
            assert(inputs@.take(0) =~= Seq::<InputSample>::empty());
        }
        while i < inputs.len()
            invariant
                i <= inputs.len(),
                held@ == pressing(inputs@.take(i as int)),
                held.len() <= i,
                sum == gamma_sum(held@),
                sum <= held.len() * 0xffff_ffff_ffff_ffff,
            decreases inputs.len() - i,
        {
            let sample: InputSample = inputs[i];
            proof {
                assert(inputs@.take(i + 1).drop_last() =~= inputs@.take(i as int));
                assert(inputs@.take(i + 1).last() == sample);
            }
            if is_pressing(&sample) {
                let depth: u64 = gamma_corrected(sample.distance);
                proof {
                    assert(held@.push(sample).drop_last() =~= held@);
                    assert((held.len() + 1) * 0xffff_ffff_ffff_ffff == held.len()
                        * 0xffff_ffff_ffff_ffff + 0xffff_ffff_ffff_ffff) by (nonlinear_arith);
                    assert(held.len() * 0xffff_ffff_ffff_ffff <= 0xffff_ffff_ffff_ffff
                        * 0xffff_ffff_ffff_ffff) by (nonlinear_arith)
                        requires
                            held.len() <= 0xffff_ffff_ffff_ffff,
                    ;
                }
                held.push(sample);
                sum = sum + depth as u128;
            }
            i = i + 1;
        }
        proof {
            assert(inputs@.take(inputs.len() as int) =~= inputs@);
        }
        let count: usize = held.len();
        let delta: u64 = frame_info.delta;
        self.pressing = held;
        self.exposure.update(delta);
        let rate: u128 = rate_of(sum, self.toplevel_thickness);
        proof {
            let cool = self.exposure.exposure as int;
            let exact = exposure_rate(sum as nat, self.toplevel_thickness as nat) as int;
            if rate != exact {
                lemma_exposed_beyond_cap(
                    cool,
                    self.exposure.max as int,
                    rate as int,
                    exact,
                    delta as int,
                );
            }
        }
        self.exposure.expose(rate, delta);
        assert(FLASH * count <= 0xffff_ffff_ffff_ffff * 0xffff_ffff_ffff_ffff) by (nonlinear_arith)
            requires
                FLASH <= 0xffff_ffff_ffff_ffff,
                count <= 0xffff_ffff_ffff_ffff,
        ;
        let flash: u128 = (FLASH as u128) * (count as u128);
        self.exposure.expose_flash(flash);
        self.exposure.exposure > UNIT as u128
    }

    /// The colour in which the shell glows after a frame: the colour of the
    /// magma ramp at the exposure while that lies above zero and has not
    /// passed one. A button that is cold or firing is not recoloured.
    pub fn shell_emission(&self) -> (r: Option<Rgba>)
        ensures
            r == glow(self.exposure.exposure as int, magma_colors(RAMP_STEPS as int)),
            r.is_some() <==> 0 < self.exposure.exposure <= UNIT,
    {
        magma_glow(self.exposure.exposure)
    }

    /// Shows or hides the model and takes or refuses input, both together.
    pub fn set_enabled(&mut self, enabled: bool)
        ensures
            final(self)@ == (ButtonState { enabled, ..old(self)@ }),
    {
        self.enabled = enabled;
    }
}

/// Something that is placed by a transform of its own.
pub trait Transformable {
    /// The transform that places it.
    fn transform(&self) -> &Transform;

    /// The transform that places it, to be changed.
    fn transform_mut(&mut self) -> &mut Transform;
}

/// The description of a button: where it is and how thick its shell is. A
/// button is described anew in every frame, and its running state is kept
/// for as long as the description stays the same.
#[derive(Clone, Copy, Debug)]
pub struct ExposureButton {
    /// Where the button is.
    pub transform: Transform,
    /// Thickness of the button's shell in micrometres.
    pub thickness: i64,
}

impl PartialEq for ExposureButton {
    fn eq(&self, other: &Self) -> (r: bool) {
        self.transform == other.transform && self.thickness == other.thickness
    }
}

impl PartialEqSpecImpl for ExposureButton {
    open spec fn obeys_eq_spec() -> bool {
        true
    }

    open spec fn eq_spec(&self, other: &Self) -> bool {
        self.transform == other.transform && self.thickness == other.thickness
    }
}

impl Transformable for ExposureButton {
    fn transform(&self) -> (r: &Transform)
        ensures
            *r == self.transform,
    {
        &self.transform
    }

    fn transform_mut(&mut self) -> (r: &mut Transform)
        ensures
            *r == old(self).transform,
            *final(self) == (ExposureButton { transform: *final(r), ..*old(self) }),
    {
        &mut self.transform
    }
}

impl ExposureButton {
    /// This description with another transform.
    pub fn transform(self, value: Transform) -> (r: ExposureButton)
        ensures
            r == (ExposureButton { transform: value, ..self }),
    {
        ExposureButton { transform: value, ..self }
    }

    /// This description with another shell thickness.
    pub fn thickness(self, value: i64) -> (r: ExposureButton)
        ensures
            r == (ExposureButton { thickness: value, ..self }),
    {
        ExposureButton { thickness: value, ..self }
    }

    /// Creates the running state of the button described.
    pub fn create_inner(&self) -> (r: ExposureButtonInner)
        ensures
            r@ == ButtonState::created(self.transform, self.thickness, TOPLEVEL_THICKNESS),
            r.wf(),
    {
        ExposureButtonInner::new(self.transform, self.thickness)
    }

    /// Advances the running state by one frame.
    pub fn frame(
        &self,
        info: &FrameInfo,
        inputs: &Vec<InputSample>,
        inner: &mut ExposureButtonInner,
    )
        requires
            old(inner).wf(),
        ensures
            final(inner).exposure.exposure == old(inner)@.exposure_after(inputs@, info.delta),
            final(inner)@ == (ButtonState {
                pressing: pressing(inputs@),
                exposure: Exposure {
                    exposure: final(inner).exposure.exposure,
                    ..old(inner).exposure
                },
                ..old(inner)@
            }),
    {
        inner.frame(info, inputs);
    }

    /// Brings the running state up to this description, given the one
    /// before it: a changed transform is applied to the model. Returns
    /// whether the button is firing, in which case the click is due; it is
    /// due again in every frame for which the button keeps firing.
    pub fn update(&self, old_self: &ExposureButton, inner: &mut ExposureButtonInner) -> (click:
        bool)
        ensures
            click == old(inner)@.firing(),
            final(inner)@ == (ButtonState {
                model: if self.transform == old_self.transform {
                    old(inner).model
                } else {
                    old(inner).model.updated(self.transform)
                },
                ..old(inner)@
            }),
    {
        if !(self.transform == old_self.transform) {
            inner.model.apply(&self.transform);
        }
        inner.exposure.exposure > UNIT as u128
    }
}

} // verus!
