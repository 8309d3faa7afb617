//! Mouse tracking for a small scene of square markers.
//!
//! The mouse cursor, read in screen pixels, is mapped into a normalized
//! coordinate space and stored in every marker on each fixed tick; once per
//! frame each marker's render placement is recomputed from its point, range
//! and origin. All quantities are held exactly: pixel positions as integers,
//! normalized points and render positions as numerators over the fixed
//! reference extents.

pub mod geometry;
pub mod marker;
pub mod laws;
pub mod scene;
