use flatland::close_button::{
    is_pressing, ExposureButton, ExposureButtonInner, FrameInfo, InputKind, InputSample,
    Transformable, COOLING, FLASH, TOPLEVEL_THICKNESS,
};
use flatland::emission::{glow_on, magma_glow, Rgba};
use flatland::exposure::UNIT;
use flatland::geometry::Transform;
use mint::{Quaternion, Vector3};

const FRAME: FrameInfo = FrameInfo { delta: 16_000 };

fn hand(distance: i64) -> InputSample {
    InputSample { distance, kind: InputKind::Hand, select: 0 }
}

fn pointer(distance: i64, select: i64) -> InputSample {
    InputSample { distance, kind: InputKind::Pointer, select }
}

fn button() -> ExposureButtonInner {
    ExposureButtonInner::new(Transform::none(), 5_000)
}

fn magma(step: u32) -> Rgba {
    let [r, g, b, a] = colorgrad::magma().at(step as f64 / 1000.0).to_rgba16();
    Rgba { r, g, b, a }
}

#[test]
fn constants() {
    assert_eq!(TOPLEVEL_THICKNESS, 10_000);
    assert_eq!(COOLING, 5_000_000);
    assert_eq!(FLASH * 4, UNIT);
}

#[test]
fn new_lays_out_the_button() {
    let place = Transform {
        position: Some(Vector3 { x: 1, y: 2, z: 3 }),
        rotation: Some(Quaternion { v: Vector3 { x: 0, y: 0, z: 0 }, s: 1_000_000 }),
        scale: None,
    };
    let b = ExposureButtonInner::new(place, 5_000);
    assert_eq!(b.root, place);
    assert_eq!(b.model, Transform::from_scale(Vector3 { x: 25_000, y: 25_000, z: 5_000 }));
    assert_eq!(b.field_extent, Vector3 { x: 37_500, y: 25_000, z: 5_000 });
    assert_eq!(
        b.field,
        Transform::from_scale(Vector3 { x: 1_000_000, y: 1_000_000, z: 1_000_000 })
    );
    assert_eq!(b.exposure.exposure, 0);
    assert_eq!(b.exposure.cooling, 5_000_000);
    assert_eq!(b.exposure.max, 1_000_000_000_000);
    assert!(b.pressing.is_empty());
    assert!(b.enabled);
    assert_eq!(b.toplevel_thickness, 10_000);
}

#[test]
fn with_toplevel_thickness_refuses_zero() {
    assert!(ExposureButtonInner::with_toplevel_thickness(Transform::none(), 5_000, 0).is_none());
    let b = ExposureButtonInner::with_toplevel_thickness(Transform::none(), 5_000, 20_000)
        .unwrap();
    assert_eq!(b.toplevel_thickness, 20_000);
    assert_eq!(b.exposure.exposure, 0);
}

#[test]
fn thicker_panel_halves_the_rate() {
    let mut b = ExposureButtonInner::with_toplevel_thickness(Transform::none(), 5_000, 20_000)
        .unwrap();
    assert!(!b.frame(&FRAME, &vec![hand(-10_000)]));
    // 123_284 * 2 * 10^6 / 20_000 = 12_328_400 per second, for 16_000 us, and a flash
    assert_eq!(b.exposure.exposure, 197_254_400_000 + 250_000_000_000);
}

#[test]
fn idle_frame_on_cold_button_changes_nothing() {
    let mut b = button();
    assert!(!b.frame(&FRAME, &vec![]));
    assert_eq!(b.exposure.exposure, 0);
    assert!(b.pressing.is_empty());
    assert_eq!(b.shell_emission(), None);
}

#[test]
fn one_frame_of_pressing_exposes_and_flashes() {
    let mut b = button();
    assert!(!b.frame(&FRAME, &vec![hand(-10_000)]));
    // 123_284 * 200 = 24_656_800 per second, for 16_000 us, and a flash
    assert_eq!(b.exposure.exposure, 394_508_800_000 + 250_000_000_000);
    assert_eq!(b.pressing.len(), 1);
    assert_eq!(b.pressing[0].distance, -10_000);
    assert_eq!(b.shell_emission(), Some(magma(644)));
}

#[test]
fn sustained_pressing_fires() {
    let mut b = button();
    let inputs = vec![hand(-10_000)];
    assert!(!b.frame(&FRAME, &inputs));
    assert!(b.frame(&FRAME, &inputs));
    assert_eq!(b.exposure.exposure, 1_209_017_600_000);
    assert_eq!(b.shell_emission(), None);
    assert!(b.frame(&FRAME, &inputs));
    assert_eq!(b.exposure.exposure, 1_250_000_000_000);
    assert!(b.frame(&FRAME, &inputs));
}

#[test]
fn light_sustained_pressing_fires_within_five_frames() {
    let mut b = button();
    // 0.000_001 m deep: gamma 1_873, rate 374_600 per second, below the cooling
    let shallow = vec![hand(-1)];
    let still = FrameInfo { delta: 0 };
    let mut fired = 0;
    for _ in 0..5 {
        if b.frame(&still, &shallow) {
            fired += 1;
        }
    }
    assert_eq!(fired, 1);
    assert_eq!(b.exposure.exposure, 1_250_000_000_000);

    let mut b = button();
    // 0.03 m deep: gamma 203_133, rate 40_626_600 per second, above the cooling
    let deep = vec![hand(-30_000)];
    let slow = FrameInfo { delta: 1_000_000 };
    assert!(b.frame(&slow, &deep));
    assert_eq!(b.exposure.exposure, 1_250_000_000_000);
    assert!(b.frame(&slow, &deep));
}

#[test]
fn pressing_below_the_cooling_never_fires_in_long_frames() {
    let mut b = button();
    let shallow = vec![hand(-1)];
    let slow = FrameInfo { delta: 1_000_000 };
    for _ in 0..20 {
        assert!(!b.frame(&slow, &shallow));
        // 374_600 per second for a second, and a flash
        assert_eq!(b.exposure.exposure, 374_600_000_000 + 250_000_000_000);
    }
}

#[test]
fn firing_button_cools_to_the_cap_and_glows_at_the_top() {
    let mut b = button();
    let inputs = vec![hand(-10_000)];
    b.frame(&FRAME, &inputs);
    assert!(b.frame(&FRAME, &inputs));
    assert!(!b.frame(&FRAME, &vec![]));
    assert_eq!(b.exposure.exposure, 1_000_000_000_000);
    assert!(b.pressing.is_empty());
    assert_eq!(b.shell_emission(), Some(magma(1000)));
}

#[test]
fn idle_frames_cool_to_zero_and_stay_there() {
    let mut b = button();
    b.frame(&FRAME, &vec![hand(-10_000)]);
    let mut last = b.exposure.exposure;
    assert_eq!(last, 644_508_800_000);
    for n in 1..=8u128 {
        assert!(!b.frame(&FRAME, &vec![]));
        assert_eq!(b.exposure.exposure, 644_508_800_000 - n * 80_000_000_000);
        assert!(b.exposure.exposure <= last);
        last = b.exposure.exposure;
    }
    assert_eq!(last, 4_508_800_000);
    assert_eq!(b.shell_emission(), Some(magma(4)));
    for _ in 0..3 {
        assert!(!b.frame(&FRAME, &vec![]));
        assert_eq!(b.exposure.exposure, 0);
        assert_eq!(b.shell_emission(), None);
    }
    assert!(!b.frame(&FrameInfo { delta: 0 }, &vec![]));
    assert_eq!(b.exposure.exposure, 0);
}

#[test]
fn momentary_touch_never_fires() {
    let mut b = button();
    assert!(!b.frame(&FRAME, &vec![hand(-30_000)]));
    // 203_133 * 200 = 40_626_600 per second, for 16_000 us, and a flash
    assert_eq!(b.exposure.exposure, 650_025_600_000 + 250_000_000_000);
    let mut frames = 0;
    while b.exposure.exposure > 0 {
        assert!(!b.frame(&FRAME, &vec![]));
        frames += 1;
    }
    assert_eq!(frames, 12);
}

#[test]
fn pointer_needs_select_above_half() {
    assert!(!is_pressing(&pointer(-10_000, 300_000)));
    assert!(!is_pressing(&pointer(-10_000, 500_000)));
    assert!(is_pressing(&pointer(-10_000, 500_001)));
    assert!(!is_pressing(&pointer(0, 1_000_000)));
    assert!(!is_pressing(&pointer(10_000, 1_000_000)));
    assert!(is_pressing(&hand(-1)));
    assert!(!is_pressing(&hand(0)));
    assert!(is_pressing(&InputSample { distance: -1, kind: InputKind::Tip, select: 300_000 }));
    assert!(is_pressing(&InputSample { distance: -1, kind: InputKind::Hand, select: -5 }));
}

#[test]
fn pointer_without_select_does_not_count() {
    let mut b = button();
    assert!(!b.frame(&FRAME, &vec![pointer(-10_000, 300_000)]));
    assert_eq!(b.exposure.exposure, 0);
    assert!(b.pressing.is_empty());

    let mut mixed = button();
    mixed.frame(&FRAME, &vec![pointer(-10_000, 300_000), hand(-10_000), hand(5)]);
    let mut alone = button();
    alone.frame(&FRAME, &vec![hand(-10_000)]);
    assert_eq!(mixed.exposure.exposure, alone.exposure.exposure);
    assert_eq!(mixed.pressing.len(), 1);
    assert_eq!(mixed.pressing[0].kind, InputKind::Hand);
}

#[test]
fn pointer_with_select_counts_like_any_input() {
    let mut b = button();
    b.frame(&FRAME, &vec![pointer(-10_000, 600_000)]);
    assert_eq!(b.exposure.exposure, 644_508_800_000);
    assert_eq!(b.pressing.len(), 1);
}

#[test]
fn several_inputs_add_up_and_each_flashes() {
    let mut b = button();
    let fired = b.frame(
        &FrameInfo { delta: 1_000 },
        &vec![hand(-10_000), pointer(-1_000_000, 900_000), hand(-30_000)],
    );
    // (123_284 + 1_000_000 + 203_133) * 200 per second for 1_000 us, three flashes
    assert_eq!(b.exposure.exposure, 265_283_400_000 + 750_000_000_000);
    assert!(fired);
    assert_eq!(b.pressing.len(), 3);
    assert_eq!(b.pressing[1].distance, -1_000_000);
}

#[test]
fn frame_leaves_layout_and_switch() {
    let mut b = button();
    b.set_enabled(false);
    let before_model = b.model;
    let before_root = b.root;
    b.frame(&FRAME, &vec![hand(-10_000)]);
    assert_eq!(b.model, before_model);
    assert_eq!(b.root, before_root);
    assert_eq!(b.field_extent, Vector3 { x: 37_500, y: 25_000, z: 5_000 });
    assert!(!b.enabled);
    assert_eq!(b.toplevel_thickness, 10_000);
    assert_eq!(b.exposure.cooling, 5_000_000);
    assert_eq!(b.exposure.max, UNIT);
}

#[test]
fn extreme_inputs_are_taken() {
    let mut b = ExposureButtonInner::with_toplevel_thickness(Transform::none(), 5_000, 1).unwrap();
    let far = vec![hand(i64::MIN), hand(i64::MIN), pointer(i64::MIN, i64::MAX)];
    assert!(!b.frame(&FrameInfo { delta: 0 }, &far));
    assert_eq!(b.exposure.exposure, 750_000_000_000);
    assert!(b.frame(&FrameInfo { delta: u64::MAX }, &far));
    assert_eq!(b.exposure.exposure, 1_750_000_000_000);
}

#[test]
fn set_enabled_switches_and_leaves_the_rest() {
    let mut b = button();
    b.frame(&FRAME, &vec![hand(-10_000)]);
    b.set_enabled(false);
    assert!(!b.enabled);
    assert_eq!(b.exposure.exposure, 644_508_800_000);
    assert_eq!(b.pressing.len(), 1);
    b.set_enabled(true);
    assert!(b.enabled);
}

#[test]
fn glow_follows_the_ramp() {
    assert_eq!(magma_glow(0), None);
    assert_eq!(magma_glow(1), Some(magma(0)));
    assert_eq!(magma_glow(999_999_999), Some(magma(0)));
    assert_eq!(magma_glow(1_000_000_000), Some(magma(1)));
    assert_eq!(magma_glow(500_000_000_000), Some(magma(500)));
    assert_eq!(magma_glow(1_000_000_000_000), Some(magma(1000)));
    assert_eq!(magma_glow(1_000_000_000_001), None);
    assert_ne!(magma(0), magma(1000));
    assert_eq!(magma(1000), Rgba { r: 0xfcfc, g: 0xfdfd, b: 0xbfbf, a: 0xffff });
}

#[test]
fn glow_on_an_own_ramp() {
    let dark = Rgba { r: 0, g: 0, b: 0, a: 65_535 };
    let mid = Rgba { r: 30_000, g: 0, b: 0, a: 65_535 };
    let bright = Rgba { r: 65_535, g: 0, b: 0, a: 65_535 };
    let ramp = vec![dark, mid, bright];
    assert_eq!(glow_on(0, &ramp), None);
    assert_eq!(glow_on(1, &ramp), Some(dark));
    assert_eq!(glow_on(499_999_999_999, &ramp), Some(dark));
    assert_eq!(glow_on(500_000_000_000, &ramp), Some(mid));
    assert_eq!(glow_on(999_999_999_999, &ramp), Some(mid));
    assert_eq!(glow_on(1_000_000_000_000, &ramp), Some(bright));
    assert_eq!(glow_on(1_000_000_000_001, &ramp), None);
    assert_eq!(glow_on(5, &vec![]), None);
    assert_eq!(glow_on(1_000_000_000_000, &vec![mid]), Some(mid));
}

#[test]
fn descriptions_compare_by_transform_and_thickness() {
    let a = ExposureButton { transform: Transform::none(), thickness: 5_000 };
    let b = ExposureButton { transform: Transform::none(), thickness: 5_000 };
    assert!(a == b);
    assert!(a != a.thickness(6_000));
    let moved = a.transform(Transform::from_scale(Vector3 { x: 1, y: 1, z: 1 }));
    assert!(a != moved);
    assert_eq!(moved.thickness, 5_000);
    assert_eq!(a.thickness(6_000).thickness, 6_000);
    assert_eq!(*Transformable::transform(&moved), moved.transform);
}

#[test]
fn description_transform_can_be_changed_in_place() {
    let mut a = ExposureButton { transform: Transform::none(), thickness: 5_000 };
    Transformable::transform_mut(&mut a).position = Some(Vector3 { x: 7, y: 8, z: 9 });
    assert_eq!(a.transform.position, Some(Vector3 { x: 7, y: 8, z: 9 }));
    assert_eq!(a.thickness, 5_000);
}

#[test]
fn description_creates_and_drives_the_button() {
    let d = ExposureButton { transform: Transform::none(), thickness: 4_000 };
    let mut inner = d.create_inner();
    assert_eq!(inner.model, Transform::from_scale(Vector3 { x: 25_000, y: 25_000, z: 4_000 }));
    assert_eq!(inner.field_extent, Vector3 { x: 37_500, y: 25_000, z: 4_000 });
    let inputs = vec![hand(-10_000)];
    d.frame(&FRAME, &inputs, &mut inner);
    assert!(!d.update(&d, &mut inner));
    d.frame(&FRAME, &inputs, &mut inner);
    assert_eq!(inner.exposure.exposure, 1_209_017_600_000);
    assert!(d.update(&d, &mut inner));
    assert!(d.update(&d, &mut inner));
    d.frame(&FRAME, &vec![], &mut inner);
    assert!(!d.update(&d, &mut inner));
}

#[test]
fn update_applies_a_changed_transform_to_the_model() {
    let old = ExposureButton { transform: Transform::none(), thickness: 4_000 };
    let mut inner = old.create_inner();
    let before = inner.model;
    assert!(!old.update(&old, &mut inner));
    assert_eq!(inner.model, before);
    let new = old.transform(Transform {
        position: Some(Vector3 { x: 10, y: 20, z: 30 }),
        rotation: None,
        scale: None,
    });
    assert!(!new.update(&old, &mut inner));
    assert_eq!(inner.model.position, Some(Vector3 { x: 10, y: 20, z: 30 }));
    assert_eq!(inner.model.scale, Some(Vector3 { x: 25_000, y: 25_000, z: 4_000 }));
    assert_eq!(inner.root, Transform::none());
}
