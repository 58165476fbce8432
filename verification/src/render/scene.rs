//! The celestial background pattern.
//!
//! A ray that escapes is shaded by the grid square of the celestial sphere
//! that its direction points at: squares alternate between two colours like
//! a checkerboard, and a pseudo-random hash of the square turns a few of
//! them into stars. The float projection of a direction onto its square
//! stands outside this crate; the square's colour is computed here.
use vstd::prelude::*;

use crate::constants::{
    color_grid_primary, color_grid_secondary, color_star, grid_primary_rgb, grid_secondary_rgb,
    star_rgb, Color,
};

verus! {

/// Hash of a grid square, used to scatter stars.
pub open spec fn grid_hash(grid_u: i32, grid_v: i32) -> u32 {
    (grid_u.wrapping_mul(73856093) ^ grid_v.wrapping_mul(19349663)) as u32
}

/// A grid square is a star when its hash is a multiple of 47.
pub open spec fn is_star(grid_u: i32, grid_v: i32) -> bool {
    grid_hash(grid_u, grid_v) % 47 == 0
}

/// Colour of the celestial grid square `(grid_u, grid_v)`: a star colour on
/// star squares, otherwise the primary colour where `grid_u + grid_v` is even
/// and the secondary colour where it is odd.
pub open spec fn grid_color(grid_u: i32, grid_v: i32) -> Color {
    if is_star(grid_u, grid_v) {
        star_rgb()
    } else if (grid_u + grid_v) % 2 == 0 {
        grid_primary_rgb()
    } else {
        grid_secondary_rgb()
    }
}

/// The grid squares form a checkerboard with stars, over the whole sky,
/// negative indices included: a square whose hash is a multiple of 47 is a
/// star; any other square has the primary colour exactly when the sum of its
/// indices is even, and the secondary colour exactly when that sum is odd.
pub proof fn lemma_grid_checkerboard(grid_u: i32, grid_v: i32)
    ensures
        (grid_u.wrapping_mul(73856093) ^ grid_v.wrapping_mul(19349663)) as u32 % 47 == 0
            ==> grid_color(grid_u, grid_v) == Color::Rgb(200, 210, 255),
        (grid_u.wrapping_mul(73856093) ^ grid_v.wrapping_mul(19349663)) as u32 % 47 != 0 ==> {
            &&& grid_color(grid_u, grid_v) == Color::Rgb(30, 35, 60) <==> (grid_u + grid_v) % 2 == 0
            &&& grid_color(grid_u, grid_v) == Color::Rgb(20, 22, 40) <==> (grid_u + grid_v) % 2 != 0
        },
{
}

/// Two non-star squares whose index sums differ by one have different
/// colours: the checkerboard alternates everywhere.
pub proof fn lemma_grid_neighbours_differ(u1: i32, v1: i32, u2: i32, v2: i32)
    requires
        (u1.wrapping_mul(73856093) ^ v1.wrapping_mul(19349663)) as u32 % 47 != 0,
        (u2.wrapping_mul(73856093) ^ v2.wrapping_mul(19349663)) as u32 % 47 != 0,
        u2 + v2 == u1 + v1 + 1,
    ensures
        grid_color(u1, v1) != grid_color(u2, v2),
{
    lemma_grid_checkerboard(u1, v1);
    lemma_grid_checkerboard(u2, v2);
}

/// Colour of the celestial grid square `(grid_u, grid_v)`.
pub fn grid_cell_color(grid_u: i32, grid_v: i32) -> (c: Color)
    requires
        i32::MIN <= grid_u + grid_v <= i32::MAX,
    ensures
        c == grid_color(grid_u, grid_v),
        (grid_u.wrapping_mul(73856093) ^ grid_v.wrapping_mul(19349663)) as u32 % 47 == 0 ==> c
            == Color::Rgb(200, 210, 255),
        (grid_u.wrapping_mul(73856093) ^ grid_v.wrapping_mul(19349663)) as u32 % 47 != 0 ==> (c
            == Color::Rgb(30, 35, 60) <==> (grid_u + grid_v) % 2 == 0),
        (grid_u.wrapping_mul(73856093) ^ grid_v.wrapping_mul(19349663)) as u32 % 47 != 0 ==> (c
            == Color::Rgb(20, 22, 40) <==> (grid_u + grid_v) % 2 != 0),
{
    proof {
        lemma_grid_checkerboard(grid_u, grid_v);
    }
    let sum: i32 = grid_u + grid_v;
    let is_primary = sum % 2 == 0;
    assert(is_primary == ((grid_u + grid_v) % 2 == 0));
    let su: i32 = grid_u.wrapping_mul(73856093);
    let sv: i32 = grid_v.wrapping_mul(19349663);
    let hash = (su ^ sv) as u32;
    assert(hash == grid_hash(grid_u, grid_v));
    let star = hash % 47 == 0;
    if star {
        color_star()
    } else if is_primary {
        color_grid_primary()
    } else {
        color_grid_secondary()
    }
}

} // verus!
