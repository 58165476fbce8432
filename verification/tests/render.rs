use schwarzschild_raytracer_tui::constants::{
    color_grid_primary, color_grid_secondary, color_star, Color, FRAME_DURATION_MS,
    MAX_INTEGRATION_STEPS, TARGET_FPS,
};
use schwarzschild_raytracer_tui::render::framebuffer::{Cell, FrameBuffer};
use schwarzschild_raytracer_tui::render::renderer::{cell_coordinates, subpixel_rows, total_rays};
use schwarzschild_raytracer_tui::render::scene::grid_cell_color;
use schwarzschild_raytracer_tui::tui::ui::{frame_runs, row_runs, StyleRun};

#[test]
fn timing_constants() {
    assert_eq!(TARGET_FPS, 60);
    assert_eq!(FRAME_DURATION_MS, 16);
    assert_eq!(MAX_INTEGRATION_STEPS, 500);
}

#[test]
fn total_rays_two_per_cell() {
    assert_eq!(total_rays(80, 40), 6400);
    assert_eq!(total_rays(0, 40), 0);
    assert_eq!(total_rays(65535, 65535), 65535u64 * 65535 * 2);
}

#[test]
fn cell_coordinates_split_index() {
    assert_eq!(cell_coordinates(0, 10), (0, 0));
    assert_eq!(cell_coordinates(9, 10), (9, 0));
    assert_eq!(cell_coordinates(23, 10), (3, 2));
    assert_eq!(cell_coordinates(7, 1), (0, 7));
}

#[test]
fn cell_coordinates_round_trip() {
    let (w, h) = (7u16, 5u16);
    for y in 0..h {
        for x in 0..w {
            let idx = y as usize * w as usize + x as usize;
            assert_eq!(cell_coordinates(idx, w), (x, y));
        }
    }
}

#[test]
fn subpixel_rows_of_cell_row() {
    assert_eq!(subpixel_rows(0), (0, 1));
    assert_eq!(subpixel_rows(5), (10, 11));
    assert_eq!(subpixel_rows(32767), (65534, 65535));
}

#[test]
fn grid_origin_is_a_star() {
    assert_eq!(grid_cell_color(0, 0), color_star());
    assert_eq!(grid_cell_color(0, 0), Color::Rgb(200, 210, 255));
}

#[test]
fn grid_checkerboard() {
    // (1, 0): hash 73856093, not a multiple of 47, odd sum.
    assert_eq!(grid_cell_color(1, 0), color_grid_secondary());
    // (1, 1): hash 88192194, not a multiple of 47, even sum.
    assert_eq!(grid_cell_color(1, 1), color_grid_primary());
    assert_eq!(grid_cell_color(1, 1), Color::Rgb(30, 35, 60));
    // (-1, 2): odd sum, negative column.
    assert_eq!(grid_cell_color(-1, 2), Color::Rgb(20, 22, 40));
    // (2, 3): odd sum.
    assert_eq!(grid_cell_color(2, 3), color_grid_secondary());
}

#[test]
fn grid_deterministic() {
    for u in -12..=12 {
        for v in -12..=12 {
            assert_eq!(grid_cell_color(u, v), grid_cell_color(u, v));
        }
    }
}

#[test]
fn grid_star_where_hash_divisible() {
    let mut stars = 0;
    for u in 0..=12i32 {
        for v in -12..=12i32 {
            let hash = (u.wrapping_mul(73856093) ^ v.wrapping_mul(19349663)) as u32;
            let c = grid_cell_color(u, v);
            if hash % 47 == 0 {
                stars += 1;
                assert_eq!(c, color_star());
            } else {
                assert_ne!(c, color_star());
            }
        }
    }
    assert!(stars >= 1);
}

fn red() -> Cell {
    Cell { top_color: Color::Rgb(255, 0, 0), bottom_color: Color::Rgb(0, 0, 0) }
}

#[test]
fn row_of_equal_cells_is_one_run() {
    let fb = FrameBuffer::new(5, 2);
    let runs = row_runs(&fb, 1);
    assert_eq!(runs, vec![StyleRun { cell: Cell::default(), len: 5 }]);
}

#[test]
fn row_runs_split_on_colour_change() {
    let mut fb = FrameBuffer::new(6, 2);
    fb.get_mut(1, 0).top_color = Color::Rgb(255, 0, 0);
    fb.get_mut(2, 0).top_color = Color::Rgb(255, 0, 0);
    fb.get_mut(5, 0).top_color = Color::Rgb(255, 0, 0);
    let runs = row_runs(&fb, 0);
    assert_eq!(
        runs,
        vec![
            StyleRun { cell: Cell::default(), len: 1 },
            StyleRun { cell: red(), len: 2 },
            StyleRun { cell: Cell::default(), len: 2 },
            StyleRun { cell: red(), len: 1 },
        ]
    );
    // The other row is untouched.
    assert_eq!(row_runs(&fb, 1), vec![StyleRun { cell: Cell::default(), len: 6 }]);
}

#[test]
fn bottom_colour_also_splits_runs() {
    let mut fb = FrameBuffer::new(3, 1);
    fb.get_mut(1, 0).bottom_color = Color::Rgb(0, 0, 1);
    let runs = row_runs(&fb, 0);
    assert_eq!(runs.len(), 3);
    assert_eq!(runs[1].cell.bottom_color, Color::Rgb(0, 0, 1));
    assert!(runs.iter().all(|r| r.len == 1));
}

#[test]
fn zero_width_rows_have_no_runs() {
    let fb = FrameBuffer::new(0, 3);
    let lines = frame_runs(&fb);
    assert_eq!(lines.len(), 3);
    assert!(lines.iter().all(|l| l.is_empty()));
}

#[test]
fn frame_runs_reproduce_every_row() {
    let mut fb = FrameBuffer::new(4, 3);
    fb.get_mut(0, 0).top_color = Color::Rgb(1, 1, 1);
    fb.get_mut(3, 2).bottom_color = Color::Rgb(2, 2, 2);
    fb.get_mut(2, 2).bottom_color = Color::Rgb(2, 2, 2);
    let lines = frame_runs(&fb);
    assert_eq!(lines.len(), 3);
    for (y, runs) in lines.iter().enumerate() {
        let mut cells = Vec::new();
        for r in runs {
            assert!(r.len > 0);
            for _ in 0..r.len {
                cells.push(r.cell);
            }
        }
        assert_eq!(cells, fb.cells[y * 4..y * 4 + 4].to_vec());
        for pair in runs.windows(2) {
            assert_ne!(pair[0].cell, pair[1].cell);
        }
    }
    assert_eq!(lines[1], vec![StyleRun { cell: Cell::default(), len: 4 }]);
    assert_eq!(lines[2].len(), 2);
}
