//! Properties that relate several ticks and frames.

use vstd::prelude::*;

use crate::geometry::{Pixel, NormPoint, mapped};
use crate::marker::{Marker, Placement, refreshed, applied};

verus! {

/// One reading taken at a fixed tick: the cursor position, and the window's
/// position if the window system could give it.
pub type Reading = (Pixel, Option<Pixel>);

/// The scene after one tick per reading, in order: what repeated calls of
/// `tick_all` produce.
pub open spec fn run_ticks(ms: Seq<Marker>, readings: Seq<Reading>) -> Seq<Marker>
    decreases readings.len(),
{
    if readings.len() == 0 {
        ms
    } else {
        let r = readings.last();
        run_ticks(ms, readings.drop_last()).map_values(|m: Marker| refreshed(m, r.0, r.1))
    }
}

/// One more tick extends the run: a call of `tick_all` with a reading takes
/// the scene after `readings` to the scene after `readings` and that reading.
pub proof fn lemma_one_more_tick(ms: Seq<Marker>, readings: Seq<Reading>, r: Reading)
    ensures
        run_ticks(ms, readings.push(r)) == run_ticks(ms, readings).map_values(
            |m: Marker| refreshed(m, r.0, r.1),
        ),
{
    assert(readings.push(r).drop_last() =~= readings);
}

/// The point most recently computed for `m` over `readings`: that of the last
/// reading with a known window position, or `m`'s own point if there is none.
pub open spec fn latest_point(m: Marker, readings: Seq<Reading>) -> NormPoint
    decreases readings.len(),
{
    if readings.len() == 0 {
        m.point
    } else {
        match readings.last().1 {
            Some(w) => mapped(readings.last().0, w, m.origin),
            None => latest_point(m, readings.drop_last()),
        }
    }
}

/// After any sequence of ticks, every marker holds the point most recently
/// computed for it, and its origin and range are those it started with.
pub proof fn lemma_ticks_track_latest(ms: Seq<Marker>, readings: Seq<Reading>)
    ensures
        run_ticks(ms, readings).len() == ms.len(),
        forall|i: int|
            0 <= i < ms.len() ==> #[trigger] run_ticks(ms, readings)[i] == (Marker {
                point: latest_point(ms[i], readings),
                origin: ms[i].origin,
                range: ms[i].range,
            }),
    decreases readings.len(),
{
    if readings.len() > 0 {
        lemma_ticks_track_latest(ms, readings.drop_last());
    }
}

/// Ticks never change a marker's origin or range; only its point moves.
pub proof fn lemma_ticks_keep_origin_and_range(ms: Seq<Marker>, readings: Seq<Reading>)
    ensures
        run_ticks(ms, readings).len() == ms.len(),
        forall|i: int|
            0 <= i < ms.len() ==> (#[trigger] run_ticks(ms, readings)[i]).origin == ms[i].origin
                && run_ticks(ms, readings)[i].range == ms[i].range,
{
    lemma_ticks_track_latest(ms, readings);
}

/// A tick whose window-position query failed leaves every marker, and so its
/// point from the last successful tick, unchanged.
pub proof fn lemma_failed_query_keeps_points(
    ms: Seq<Marker>,
    readings: Seq<Reading>,
    mouse: Pixel,
)
    ensures
        run_ticks(ms, readings.push((mouse, None))) == run_ticks(ms, readings),
        forall|m: Marker| #[trigger] refreshed(m, mouse, None) == m,
{
    let ms1 = run_ticks(ms, readings);
    assert(readings.push((mouse, None)).drop_last() =~= readings);
    assert(ms1.map_values(|m: Marker| refreshed(m, mouse, None)) =~= ms1);
}

/// Applying the position step twice with an unchanged point gives the same
/// placement as applying it once.
pub proof fn lemma_apply_idempotent(p: Placement, m: Marker)
    ensures
        applied(applied(p, m), m) == applied(p, m),
{
}

/// However many ticks ran since the scene state `ms`, the position step of
/// the frame that follows places each marker by the point most recently
/// computed for it.
pub proof fn lemma_frame_shows_latest_point(
    ms: Seq<Marker>,
    readings: Seq<Reading>,
    p: Placement,
    i: int,
)
    requires
        0 <= i < ms.len(),
    ensures
        applied(p, run_ticks(ms, readings)[i]) == applied(
            p,
            Marker { point: latest_point(ms[i], readings), origin: ms[i].origin, range: ms[i].range },
        ),
{
    lemma_ticks_track_latest(ms, readings);
}

} // verus!
