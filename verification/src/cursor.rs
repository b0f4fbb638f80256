//! The cursor proxy: a flat model that shows a surface's pointer image at the
//! pointer's place on the surface.
use vstd::prelude::*;
use mint::{Vector2, Vector3};
use crate::geometry::{Transform, ONE};

verus! {

/// Default number of surface pixels per metre.
pub const PPM: u32 = 3000;

/// Height of the cursor above its surface, in micrometres, which keeps the
/// two from fighting over depth.
pub const CURSOR_LIFT: i64 = 10_000;

/// Scale of the cursor's model before any pointer image is known, in
/// millionths.
pub const INITIAL_SCALE: i64 = 100_000;

/// Largest magnitude of a coordinate in millionths of a pixel for which every
/// derived length fits its type.
pub const PIXEL_LIMIT: i64 = 0x2000_0000_0000_0000;

/// Whether both components of `v` lie within `PIXEL_LIMIT` of zero.
pub open spec fn within_limit(v: Vector2<i64>) -> bool {
    &&& -PIXEL_LIMIT <= v.x <= PIXEL_LIMIT
    &&& -PIXEL_LIMIT <= v.y <= PIXEL_LIMIT
}

/// What a surface reports of its pointer image, in whole pixels.
#[derive(Clone, Copy, Debug)]
pub struct CursorInfo {
    /// The pixel of the image that sits on the pointer's position.
    pub hotspot: Vector2<i32>,
    /// Width and height of the image.
    pub size: Vector2<u32>,
}

/// A length of `numerator / denominator`, rounded towards zero.
pub open spec fn quotient(numerator: int, denominator: int) -> int {
    if numerator >= 0 {
        numerator / denominator
    } else {
        -((-numerator) / denominator)
    }
}

/// The length of `pixels` whole pixels in micrometres, at `ppm` pixels per
/// metre, rounded towards zero.
pub open spec fn pixels_to_length(pixels: int, ppm: int) -> int {
    quotient(pixels * 1_000_000, ppm)
}

/// The offset from the centre of a span of `size` to `position`, both in
/// millionths of a pixel, as a length in micrometres at `ppm` pixels per
/// metre, rounded towards zero: `(-size * 0.5 + position) / ppm`.
pub open spec fn centred_length(size: int, position: int, ppm: int) -> int {
    quotient(2 * position - size, 2 * ppm)
}

/// The position that shows a pointer image with the given hotspot: the
/// hotspot's pixel lies on the model's origin.
pub open spec fn hotspot_position(info: CursorInfo, ppm: int) -> Vector3<i64> {
    Vector3 {
        x: (-pixels_to_length(info.hotspot.x as int, ppm)) as i64,
        y: pixels_to_length(info.hotspot.y as int, ppm) as i64,
        z: 0,
    }
}

/// The scale that shows a pointer image of the given size at its true size.
pub open spec fn image_scale(info: CursorInfo, ppm: int) -> Vector3<i64> {
    Vector3 {
        x: pixels_to_length(info.size.x as int, ppm) as i64,
        y: pixels_to_length(info.size.y as int, ppm) as i64,
        z: ONE,
    }
}

/// The scale that hides the model: flat in both visible axes, depth kept.
pub open spec fn hidden_scale() -> Vector3<i64> {
    Vector3 { x: 0, y: 0, z: ONE }
}

/// The root position for a pointer at `position` on a surface of `size`:
/// measured from the surface's centre, the vertical axis pointing up, lifted
/// off the surface.
pub open spec fn pointer_position(size: Vector2<i64>, position: Vector2<i64>, ppm: int) -> Vector3<
    i64,
> {
    Vector3 {
        x: centred_length(size.x as int, position.x as int, ppm) as i64,
        y: (-centred_length(size.y as int, position.y as int, ppm)) as i64,
        z: CURSOR_LIFT,
    }
}

/// `numerator / denominator` rounded towards zero.
fn divide(numerator: i128, denominator: u64) -> (r: i128)
    requires
        denominator > 0,
        -0x4000_0000_0000_0000_0000_0000_0000_0000 < numerator
            < 0x4000_0000_0000_0000_0000_0000_0000_0000,
    ensures
        r == quotient(numerator as int, denominator as int),
        numerator >= 0 ==> 0 <= r <= numerator,
        numerator < 0 ==> numerator <= r <= 0,
{
    if numerator >= 0 {
        let n: u128 = numerator as u128;
        let q: u128 = n / (denominator as u128);
        assert(q <= n) by (nonlinear_arith)
            requires
                q == n / (denominator as u128),
                denominator > 0,
        ;
        q as i128
    } else {
        let n: u128 = (-numerator) as u128;
        let q: u128 = n / (denominator as u128);
        assert(q <= n) by (nonlinear_arith)
            requires
                q == n / (denominator as u128),
                denominator > 0,
        ;
        -(q as i128)
    }
}

/// The length of `pixels` whole pixels in micrometres.
fn to_length(pixels: i64, ppm: u32) -> (r: i64)
    requires
        ppm > 0,
        -0x1_0000_0000 <= pixels <= 0x1_0000_0000,
    ensures
        r == pixels_to_length(pixels as int, ppm as int),
{
    let scaled: i128 = (pixels as i128) * 1_000_000;
    let q: i128 = divide(scaled, ppm as u64);
    q as i64
}

/// The offset from the centre of a span to a position in it, as a length.
fn to_centred_length(size: i64, position: i64, ppm: u32) -> (r: i64)
    requires
        ppm > 0,
        -PIXEL_LIMIT <= size <= PIXEL_LIMIT,
        -PIXEL_LIMIT <= position <= PIXEL_LIMIT,
    ensures
        r == centred_length(size as int, position as int, ppm as int),
        r > i64::MIN,
{
    let doubled: i128 = 2 * (position as i128) - (size as i128);
    let q: i128 = divide(doubled, 2 * (ppm as u64));
    q as i64
}

/// The cursor proxy of one surface.
#[derive(Clone, Copy, Debug)]
pub struct Cursor {
    /// Position of the cursor's root on the surface, in micrometres.
    pub root: Vector3<i64>,
    /// Transform of the model that shows the pointer image.
    pub model: Transform,
    /// Whether the model's plane shows the surface's pointer image.
    pub shows_image: bool,
    /// Last known pointer position, in millionths of a pixel.
    pub pos: Vector2<i64>,
    /// Surface pixels per metre; never zero.
    pub ppm: u32,
}

impl Cursor {
    /// Whether the pixel density is usable.
    pub open spec fn wf(&self) -> bool {
        self.ppm > 0
    }

    /// The transform that shows the pointer image that `info` describes.
    pub open spec fn image_transform(info: CursorInfo, ppm: int) -> Transform {
        Transform {
            position: Some(hotspot_position(info, ppm)),
            rotation: None,
            scale: Some(image_scale(info, ppm)),
        }
    }

    /// The cursor as it is created for a surface that reports `info`, at
    /// `ppm` pixels per metre.
    pub open spec fn created(info: Option<CursorInfo>, ppm: u32) -> Cursor {
        let fresh = Transform {
            position: None,
            rotation: None,
            scale: Some(Vector3 { x: INITIAL_SCALE, y: INITIAL_SCALE, z: INITIAL_SCALE }),
        };
        Cursor {
            root: Vector3 { x: 0, y: 0, z: 0 },
            model: match info {
                Some(i) => fresh.updated(Self::image_transform(i, ppm as int)),
                None => fresh,
            },
            shows_image: info.is_some(),
            pos: Vector2 { x: 0, y: 0 },
            ppm,
        }
    }

    /// The cursor after its surface reports `info`.
    pub open spec fn informed(self, info: Option<CursorInfo>) -> Cursor {
        match info {
            Some(i) => Cursor {
                model: self.model.updated(Self::image_transform(i, self.ppm as int)),
                shows_image: true,
                ..self
            },
            None => Cursor {
                model: Transform { scale: Some(hidden_scale()), ..self.model },
                ..self
            },
        }
    }

    /// The cursor after the pointer moves to `position` on a surface of
    /// `size`.
    pub open spec fn moved(self, size: Vector2<i64>, position: Vector2<i64>) -> Cursor {
        Cursor { root: pointer_position(size, position, self.ppm as int), ..self }
    }

    /// Creates the cursor of a surface at the default pixel density.
    pub fn new(info: &Option<CursorInfo>) -> (r: Cursor)
        ensures
            r == Self::created(*info, PPM),
            r.wf(),
    {
        Self::build(info, PPM)
    }

    /// Creates the cursor of a surface at `ppm` pixels per metre, which must
    /// not be zero.
    pub fn with_ppm(info: &Option<CursorInfo>, ppm: u32) -> (r: Option<Cursor>)
        ensures
            ppm == 0 <==> r.is_none(),
            ppm > 0 ==> r == Some(Self::created(*info, ppm)),
    {
        if ppm == 0 {
            None
        } else {
            Some(Self::build(info, ppm))
        }
    }

    fn build(info: &Option<CursorInfo>, ppm: u32) -> (r: Cursor)
        requires
            ppm > 0,
        ensures
            r == Self::created(*info, ppm),
            r.wf(),
    {
        let mut model = Transform::from_scale(
            Vector3 { x: INITIAL_SCALE, y: INITIAL_SCALE, z: INITIAL_SCALE },
        );
        if let Some(i) = info {
            let shown = Self::show(i, ppm);
            model.apply(&shown);
        }
        Cursor {
            root: Vector3 { x: 0, y: 0, z: 0 },
            model,
            shows_image: info.is_some(),
            pos: Vector2 { x: 0, y: 0 },
            ppm,
        }
    }

    fn show(info: &CursorInfo, ppm: u32) -> (r: Transform)
        requires
            ppm > 0,
        ensures
            r == Self::image_transform(*info, ppm as int),
    {
        let x: i64 = to_length(info.hotspot.x as i64, ppm);
        let y: i64 = to_length(info.hotspot.y as i64, ppm);
        let w: i64 = to_length(info.size.x as i64, ppm);
        let h: i64 = to_length(info.size.y as i64, ppm);
        Transform::from_position_scale(
            Vector3 { x: -x, y, z: 0 },
            Vector3 { x: w, y: h, z: ONE },
        )
    }

    /// Takes in what the surface reports of its pointer image. With an image
    /// the model is placed and sized to show it; without one the model is
    /// flattened out of sight.
    pub fn update_info(&mut self, cursor_info: &Option<CursorInfo>)
        requires
            old(self).wf(),
        ensures
            *final(self) == old(self).informed(*cursor_info),
            final(self).wf(),
    {
        match cursor_info {
            Some(i) => {
                let shown = Self::show(i, self.ppm);
                self.model.apply(&shown);
                self.shows_image = true;
            },
            None => {
                self.model.scale = Some(Vector3 { x: 0, y: 0, z: ONE });
            },
        }
    }

    /// Moves the cursor to `position` on a surface of `size`, both in
    /// millionths of a pixel and within `PIXEL_LIMIT`.
    pub fn update_position(&mut self, size: Vector2<i64>, position: Vector2<i64>)
        requires
            old(self).wf(),
            within_limit(size),
            within_limit(position),
        ensures
            *final(self) == old(self).moved(size, position),
            final(self).wf(),
    {
        let x: i64 = to_centred_length(size.x, position.x, self.ppm);
        let y: i64 = to_centred_length(size.y, position.y, self.ppm);
        self.root = Vector3 { x, y: -y, z: CURSOR_LIFT };
    }
}

/// Without a pointer image the model is flat in both visible axes whatever
/// it was before, and hiding a hidden cursor changes nothing.
pub proof fn lemma_hiding_is_idempotent(cursor: Cursor)
    ensures
        cursor.informed(None).model.scale == Some(hidden_scale()),
        cursor.informed(None).model.scale.unwrap().x == 0,
        cursor.informed(None).model.scale.unwrap().y == 0,
        cursor.informed(None).informed(None) == cursor.informed(None),
{
}

/// Where the pointer is shown depends on the surface's size, the pointer's
/// position and the pixel density alone, and moving it to the same place
/// again changes nothing.
pub proof fn lemma_moving_is_idempotent(
    a: Cursor,
    b: Cursor,
    size: Vector2<i64>,
    position: Vector2<i64>,
)
    requires
        a.ppm == b.ppm,
    ensures
        a.moved(size, position).root == b.moved(size, position).root,
        a.moved(size, position).root == pointer_position(size, position, a.ppm as int),
        a.moved(size, position).moved(size, position) == a.moved(size, position),
{
}

/// A cursor created without a pointer image and then told of one is the
/// cursor created with that image from the start.
pub proof fn lemma_paths_converge(info: CursorInfo, ppm: u32)
    ensures
        Cursor::created(None, ppm).informed(Some(info)) == Cursor::created(Some(info), ppm),
{
}

} // verus!
