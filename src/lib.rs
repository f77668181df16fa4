//! Marching-squares contour extraction over a binary grid.
//!
//! A grid of 0/1 flags is read cell by cell; each 2x2 cell is classified
//! into one of sixteen corner patterns, and every pattern maps to a fixed
//! polyline on the boundary of the unit cell.

pub mod grid;
pub mod classify;
pub mod contour;
