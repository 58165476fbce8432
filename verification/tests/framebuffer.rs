use schwarzschild_raytracer_tui::constants::{color_void, Color};
use schwarzschild_raytracer_tui::render::framebuffer::{Cell, FrameBuffer, HALF_BLOCK};

#[test]
fn framebuffer_creation() {
    let fb = FrameBuffer::new(80, 40);
    assert_eq!(fb.cells.len(), 80 * 40);
    assert_eq!(fb.pixel_height(), 80);
}

#[test]
fn framebuffer_resize() {
    let mut fb = FrameBuffer::new(10, 10);
    fb.resize(20, 20);
    assert_eq!(fb.cells.len(), 400);
    assert_eq!(fb.width, 20);
    assert_eq!(fb.height, 20);
}

#[test]
fn framebuffer_clear() {
    let mut fb = FrameBuffer::new(10, 10);
    fb.get_mut(5, 5).top_color = Color::Rgb(255, 0, 0);
    fb.clear();
    assert_eq!(fb.get_mut(5, 5).top_color, color_void());
}

#[test]
fn new_buffer_is_void() {
    let fb = FrameBuffer::new(3, 2);
    assert_eq!(fb.width, 3);
    assert_eq!(fb.height, 2);
    for cell in fb.cells.iter() {
        assert_eq!(*cell, Cell::default());
        assert_eq!(cell.top_color, Color::Rgb(0, 0, 0));
        assert_eq!(cell.bottom_color, Color::Rgb(0, 0, 0));
    }
}

#[test]
fn empty_buffer_has_no_cells() {
    let fb = FrameBuffer::new(0, 7);
    assert!(fb.cells.is_empty());
    assert_eq!(fb.pixel_height(), 14);
}

#[test]
fn get_mut_uses_row_major_layout() {
    let mut fb = FrameBuffer::new(4, 3);
    fb.get_mut(1, 2).bottom_color = Color::Rgb(1, 2, 3);
    assert_eq!(fb.cells[2 * 4 + 1].bottom_color, Color::Rgb(1, 2, 3));
    for (i, cell) in fb.cells.iter().enumerate() {
        if i != 9 {
            assert_eq!(*cell, Cell::default());
        }
    }
}

#[test]
fn resize_shrink_keeps_prefix() {
    let mut fb = FrameBuffer::new(4, 4);
    fb.cells[2].top_color = Color::Rgb(9, 9, 9);
    fb.cells[10].top_color = Color::Rgb(8, 8, 8);
    fb.resize(3, 2);
    assert_eq!(fb.cells.len(), 6);
    assert_eq!(fb.cells[2].top_color, Color::Rgb(9, 9, 9));
    assert_eq!(fb.width, 3);
    assert_eq!(fb.height, 2);
}

#[test]
fn resize_grow_keeps_old_cells_and_adds_void() {
    let mut fb = FrameBuffer::new(2, 2);
    fb.cells[3].bottom_color = Color::Rgb(5, 6, 7);
    fb.resize(3, 3);
    assert_eq!(fb.cells.len(), 9);
    assert_eq!(fb.cells[3].bottom_color, Color::Rgb(5, 6, 7));
    for i in 4..9 {
        assert_eq!(fb.cells[i], Cell::default());
    }
}

#[test]
fn grow_then_shrink_restores_cells() {
    let mut fb = FrameBuffer::new(2, 3);
    fb.cells[5].top_color = Color::Rgb(1, 1, 1);
    let before = fb.cells.clone();
    fb.resize(5, 5);
    fb.resize(2, 3);
    assert_eq!(fb.cells, before);
}

#[test]
fn clear_twice_is_clear_once() {
    let mut fb = FrameBuffer::new(3, 3);
    fb.cells[4].top_color = Color::Rgb(200, 1, 1);
    fb.clear();
    let once = fb.cells.clone();
    fb.clear();
    assert_eq!(fb.cells, once);
    assert!(fb.cells.iter().all(|c| *c == Cell::default()));
}

#[test]
fn cells_mut_writes_through() {
    let mut fb = FrameBuffer::new(2, 1);
    fb.cells_mut()[1].top_color = Color::Rgb(4, 4, 4);
    assert_eq!(fb.cells[1].top_color, Color::Rgb(4, 4, 4));
    assert_eq!(fb.cells_mut().len(), 2);
}

#[test]
fn half_block_is_upper_half_block() {
    assert_eq!(HALF_BLOCK, '\u{2580}');
}
