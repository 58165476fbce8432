use schwarzschild_raytracer_tui::constants::{
    color_disk_cool, color_disk_hot, color_disk_mid, color_grid_primary, color_grid_secondary,
    color_hud_bg, color_hud_text, color_photon_ring, color_star, color_void, Color,
};

#[test]
fn palette_values() {
    assert_eq!(color_void(), Color::Rgb(0, 0, 0));
    assert_eq!(color_disk_hot(), Color::Rgb(255, 240, 220));
    assert_eq!(color_disk_mid(), Color::Rgb(255, 140, 50));
    assert_eq!(color_disk_cool(), Color::Rgb(180, 40, 20));
    assert_eq!(color_grid_primary(), Color::Rgb(30, 35, 60));
    assert_eq!(color_grid_secondary(), Color::Rgb(20, 22, 40));
    assert_eq!(color_star(), Color::Rgb(200, 210, 255));
    assert_eq!(color_hud_text(), Color::Rgb(180, 220, 255));
    assert_eq!(color_hud_bg(), Color::Rgb(10, 12, 20));
    assert_eq!(color_photon_ring(), Color::Rgb(255, 255, 240));
}
