//! Markers, their render placement, and the two per-tick and per-frame steps.

use vstd::prelude::*;

use crate::geometry::{Pixel, NormPoint, REFERENCE_WIDTH, REFERENCE_HEIGHT, mapped, map_point};

verus! {

/// A trackable square: its current normalized `point`, a fixed `origin`
/// offset in pixels and a fixed scale factor `range`.
///
/// Its on-screen position is `point * range + origin`.
#[derive(Clone, Copy, Debug, PartialEq, Eq, Structural)]
pub struct Marker {
    pub point: NormPoint,
    pub origin: Pixel,
    pub range: i32,
}

/// Where a marker is drawn. The position is held exactly on the same grid
/// as a normalized point: `(x / REFERENCE_WIDTH, y / REFERENCE_HEIGHT)` world
/// units. Depth and scale are whole units.
#[derive(Clone, Copy, Debug, PartialEq, Eq, Structural)]
pub struct Placement {
    pub x: i128,
    pub y: i128,
    pub z: i32,
    pub scale_x: i32,
    pub scale_y: i32,
    pub scale_z: i32,
}

/// Numerator over `REFERENCE_WIDTH` of `point.x * range + origin.x`.
pub open spec fn world_x(m: Marker) -> int {
    m.point.x * m.range + m.origin.x * REFERENCE_WIDTH
}

/// Numerator over `REFERENCE_HEIGHT` of `point.y * range + origin.y`.
pub open spec fn world_y(m: Marker) -> int {
    m.point.y * m.range + m.origin.y * REFERENCE_HEIGHT
}

/// The marker after one tick: with the window's position known, its point is
/// the mapped cursor position; without it, the marker is left as it was.
pub open spec fn refreshed(m: Marker, mouse: Pixel, window: Option<Pixel>) -> Marker {
    match window {
        Some(w) => Marker { point: mapped(mouse, w, m.origin), origin: m.origin, range: m.range },
        None => m,
    }
}

/// The placement after the position step: position from the marker,
/// everything else kept.
pub open spec fn applied(p: Placement, m: Marker) -> Placement {
    Placement {
        x: world_x(m) as i128,
        y: world_y(m) as i128,
        z: p.z,
        scale_x: p.scale_x,
        scale_y: p.scale_y,
        scale_z: p.scale_z,
    }
}

impl Marker {
    /// A marker at the normalized centre, with the given fixed origin and range.
    pub fn new(origin: Pixel, range: i32) -> (r: Marker)
        ensures
            r.point == (NormPoint { x: 0, y: 0 }),
            r.origin == origin,
            r.range == range,
    {
        Marker { point: NormPoint { x: 0, y: 0 }, origin, range }
    }

    /// One fixed tick: stores the mapped cursor position as the point when
    /// the window's position is known, and skips the update otherwise.
    /// Origin and range are never touched.
    pub fn refresh(&mut self, mouse: Pixel, window: Option<Pixel>)
        ensures
            *final(self) == refreshed(*old(self), mouse, window),
            final(self).origin == old(self).origin,
            final(self).range == old(self).range,
            window is None ==> final(self).point == old(self).point,
    {
        match window {
            Some(w) => {
                self.point = map_point(mouse, w, self.origin);
            },
            None => {},
        }
    }

    /// The exact world-position numerators `(x, y)` of this marker, over
    /// `REFERENCE_WIDTH` and `REFERENCE_HEIGHT`.
    pub fn world_position(&self) -> (r: (i128, i128))
        ensures
            r.0 == world_x(*self),
            r.1 == world_y(*self),
    {
        let px = self.point.x as i128;
        let py = self.point.y as i128;
        let range = self.range as i128;
        assert(-0x8000_0000_0000_0000 * 0x8000_0000 <= px * range <= 0x8000_0000_0000_0000
            * 0x8000_0000) by (nonlinear_arith)
            requires
                -0x8000_0000_0000_0000 <= px <= 0x7fff_ffff_ffff_ffff,
                -0x8000_0000 <= range <= 0x7fff_ffff,
        ;
        assert(-0x8000_0000_0000_0000 * 0x8000_0000 <= py * range <= 0x8000_0000_0000_0000
            * 0x8000_0000) by (nonlinear_arith)
            requires
                -0x8000_0000_0000_0000 <= py <= 0x7fff_ffff_ffff_ffff,
                -0x8000_0000 <= range <= 0x7fff_ffff,
        ;
        let width = REFERENCE_WIDTH as i128;
        let height = REFERENCE_HEIGHT as i128;
        assert(width == 1920 && height == 1080);
        let ox = self.origin.x as i128 * width;
        let oy = self.origin.y as i128 * height;
        (px * range + ox, py * range + oy)
    }
}

/// The position step for one marker: sets the placement's position to
/// `point * range + origin` and leaves depth and scale untouched.
pub fn apply_position(placement: &mut Placement, marker: &Marker)
    ensures
        *final(placement) == applied(*old(placement), *marker),
        final(placement).x == world_x(*marker),
        final(placement).y == world_y(*marker),
{
    let (x, y) = marker.world_position();
    placement.x = x;
    placement.y = y;
}

/// One fixed tick over every marker of the scene.
pub fn tick_all(markers: &mut Vec<Marker>, mouse: Pixel, window: Option<Pixel>)
    ensures
        final(markers)@ == old(markers)@.map_values(|m: Marker| refreshed(m, mouse, window)),
{
    let n = markers.len();
    let mut i: usize = 0;
    while i < n
        invariant
            n == old(markers)@.len(),
            markers@.len() == n,
            i <= n,
            forall|j: int| 0 <= j < i ==> #[trigger] markers@[j] == refreshed(old(markers)@[j], mouse, window),
            forall|j: int| i <= j < n ==> #[trigger] markers@[j] == old(markers)@[j],
        decreases n - i,
    {
        let mut m = markers[i];
        m.refresh(mouse, window);
        markers.set(i, m);
        i = i + 1;
    }
    assert(markers@ =~= old(markers)@.map_values(|m: Marker| refreshed(m, mouse, window)));
}

/// The position step over every marker, each with its own placement.
pub fn apply_all(placements: &mut Vec<Placement>, markers: &Vec<Marker>)
    requires
        old(placements)@.len() == markers@.len(),
    ensures
        final(placements)@.len() == markers@.len(),
        forall|j: int| 0 <= j < markers@.len() ==> #[trigger] final(placements)@[j] == applied(old(placements)@[j], markers@[j]),
{
    let n = markers.len();
    let mut i: usize = 0;
    while i < n
        invariant
            n == markers@.len(),
            placements@.len() == n,
            i <= n,
            forall|j: int| 0 <= j < i ==> #[trigger] placements@[j] == applied(old(placements)@[j], markers@[j]),
            forall|j: int| i <= j < n ==> #[trigger] placements@[j] == old(placements)@[j],
        decreases n - i,
    {
        let mut p = placements[i];
        apply_position(&mut p, &markers[i]);
        placements.set(i, p);
        i = i + 1;
    }
}

} // verus!
