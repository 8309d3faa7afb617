//! The squares that make up the scene at startup.

use vstd::prelude::*;

use crate::geometry::{Pixel, NormPoint, REFERENCE_WIDTH};
use crate::marker::{Marker, Placement};

verus! {

/// Side of one cell, in world units: square sizes are multiples of it.
pub const CELL_SIZE: i32 = 10;

/// The colour a square is drawn in.
#[derive(Clone, Copy, Debug, PartialEq, Eq, Structural)]
pub enum Shade {
    Gray,
    White,
    Blue,
}

/// One square as it is spawned: its colour, where and how large it is drawn,
/// and the marker that drives it.
#[derive(Clone, Copy, Debug, PartialEq, Eq, Structural)]
pub struct SquareSetup {
    pub shade: Shade,
    pub placement: Placement,
    pub marker: Marker,
}

/// A square `cells` cells wide and high, one cell deep, drawn at `(at_x, 0)`
/// world units, whose marker has origin `(origin_x, 0)` and the given range.
pub open spec fn square_spec(shade: Shade, cells: i32, at_x: i32, origin_x: i32, range: i32) -> SquareSetup {
    SquareSetup {
        shade,
        placement: Placement {
            x: (at_x * REFERENCE_WIDTH) as i128,
            y: 0,
            z: 0,
            scale_x: (cells * CELL_SIZE) as i32,
            scale_y: (cells * CELL_SIZE) as i32,
            scale_z: CELL_SIZE,
        },
        marker: Marker {
            point: NormPoint { x: 0, y: 0 },
            origin: Pixel { x: origin_x, y: 0 },
            range,
        },
    }
}

/// The scene at startup: a large gray square, two white squares either side
/// of it, and two small blue squares that start at the centre but are offset
/// to either side.
pub open spec fn startup_scene() -> Seq<SquareSetup> {
    seq![
        square_spec(Shade::Gray, 6, 0, 0, 1),
        square_spec(Shade::White, 2, -15i32, -15i32, 5),
        square_spec(Shade::White, 2, 15, 15, 5),
        square_spec(Shade::Blue, 1, 0, -15i32, 10),
        square_spec(Shade::Blue, 1, 0, 15, 10),
    ]
}

fn square(shade: Shade, cells: i32, at_x: i32, origin_x: i32, range: i32) -> (r: SquareSetup)
    requires
        1 <= cells <= 6,
        -15 <= at_x <= 15,
    ensures
        r == square_spec(shade, cells, at_x, origin_x, range),
{
    let size = cells * CELL_SIZE;
    SquareSetup {
        shade,
        placement: Placement {
            x: at_x as i128 * REFERENCE_WIDTH as i128,
            y: 0,
            z: 0,
            scale_x: size,
            scale_y: size,
            scale_z: CELL_SIZE,
        },
        marker: Marker::new(Pixel { x: origin_x, y: 0 }, range),
    }
}

/// The squares to spawn at startup, in order.
pub fn startup_squares() -> (r: Vec<SquareSetup>)
    ensures
        r@ == startup_scene(),
{
    let mut r: Vec<SquareSetup> = Vec::new();
    r.push(square(Shade::Gray, 6, 0, 0, 1));
    r.push(square(Shade::White, 2, -15, -15, 5));
    r.push(square(Shade::White, 2, 15, 15, 5));
    r.push(square(Shade::Blue, 1, 0, -15, 10));
    r.push(square(Shade::Blue, 1, 0, 15, 10));
    assert(r@ =~= startup_scene());
    r
}

} // verus!
