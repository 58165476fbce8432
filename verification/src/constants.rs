//! Integer tuning values and the colour palette of the renderer.
use vstd::prelude::*;

verus! {

/// A 24-bit terminal colour.
#[derive(Clone, Copy, Debug, PartialEq, Eq, Structural)]
pub enum Color {
    Rgb(u8, u8, u8),
}

/// Maximum number of integration steps before a ray is given up on.
pub const MAX_INTEGRATION_STEPS: u32 = 500;

/// Target frames per second of the main loop.
pub const TARGET_FPS: u64 = 60;

/// Duration of one frame in milliseconds.
pub const FRAME_DURATION_MS: u64 = 1000 / TARGET_FPS;

/// Colour of the event horizon and of every cleared cell.
pub open spec fn void_rgb() -> Color {
    Color::Rgb(0, 0, 0)
}

/// Event horizon / void colour.
pub fn color_void() -> (c: Color)
    ensures
        c == void_rgb(),
{
    Color::Rgb(0, 0, 0)
}

/// Hottest part of the accretion disk (inner edge, white-hot).
pub fn color_disk_hot() -> (c: Color)
    ensures
        c == Color::Rgb(255, 240, 220),
{
    Color::Rgb(255, 240, 220)
}

/// Mid-temperature disk (orange glow).
pub fn color_disk_mid() -> (c: Color)
    ensures
        c == Color::Rgb(255, 140, 50),
{
    Color::Rgb(255, 140, 50)
}

/// Cooler outer disk (deep red).
pub fn color_disk_cool() -> (c: Color)
    ensures
        c == Color::Rgb(180, 40, 20),
{
    Color::Rgb(180, 40, 20)
}

/// Primary colour of the celestial grid.
pub open spec fn grid_primary_rgb() -> Color {
    Color::Rgb(30, 35, 60)
}

/// Secondary colour of the celestial grid (alternating squares).
pub open spec fn grid_secondary_rgb() -> Color {
    Color::Rgb(20, 22, 40)
}

/// Colour of the scattered stars on the celestial sphere.
pub open spec fn star_rgb() -> Color {
    Color::Rgb(200, 210, 255)
}

/// Background celestial grid, primary colour.
pub fn color_grid_primary() -> (c: Color)
    ensures
        c == grid_primary_rgb(),
{
    Color::Rgb(30, 35, 60)
}

/// Background celestial grid, secondary colour.
pub fn color_grid_secondary() -> (c: Color)
    ensures
        c == grid_secondary_rgb(),
{
    Color::Rgb(20, 22, 40)
}

/// Bright star dots on the celestial sphere.
pub fn color_star() -> (c: Color)
    ensures
        c == star_rgb(),
{
    Color::Rgb(200, 210, 255)
}

/// Text colour of the telemetry overlay.
pub fn color_hud_text() -> (c: Color)
    ensures
        c == Color::Rgb(180, 220, 255),
{
    Color::Rgb(180, 220, 255)
}

/// Background colour of the telemetry overlay.
pub fn color_hud_bg() -> (c: Color)
    ensures
        c == Color::Rgb(10, 12, 20),
{
    Color::Rgb(10, 12, 20)
}

/// Glow colour of the photon ring.
pub fn color_photon_ring() -> (c: Color)
    ensures
        c == Color::Rgb(255, 255, 240),
{
    Color::Rgb(255, 255, 240)
}

} // verus!
