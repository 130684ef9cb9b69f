use azusa::{Azusa, Color, DrawTarget, GeometryError, ImageSurface, ImageType, PixelCanvas, Rgba};

fn pixel(c: &PixelCanvas, x: u32, y: u32) -> Rgba {
    let i = ((y * c.width() + x) * 4) as usize;
    let b = c.as_bytes();
    (b[i], b[i + 1], b[i + 2], b[i + 3])
}

fn surface_pixel(s: &ImageSurface, x: u32, y: u32) -> Rgba {
    let (w, _) = azusa::Surface::get_client_size(s);
    let i = ((y * w + x) * 4) as usize;
    let b = s.as_bytes();
    (b[i], b[i + 1], b[i + 2], b[i + 3])
}

const WHITE: Rgba = (255, 255, 255, 255);
const RED: Rgba = (255, 0, 0, 255);
const BLUE: Rgba = (0, 0, 255, 255);

#[test]
fn new_canvas_is_zeroed() {
    let c = PixelCanvas::new(3, 2);
    assert_eq!(c.as_bytes().len(), 24);
    assert!(c.as_bytes().iter().all(|b| *b == 0));
}

#[test]
fn clear_red_fills_every_pixel() {
    let mut s = ImageSurface::new(7, 5, "red", ImageType::Png);
    let mut azusa = Azusa::new();
    azusa.set_source_color(Color::Red);
    azusa.clear();
    let reports = azusa.draw(&mut s);
    assert!(reports.is_empty());
    assert_eq!(s.as_bytes().len(), 7 * 5 * 4);
    for chunk in s.as_bytes().chunks(4) {
        assert_eq!(chunk, &[255, 0, 0, 255]);
    }
}

#[test]
fn replay_twice_gives_identical_bytes() {
    let mut azusa = Azusa::new();
    azusa.set_source_color(Color::Gray);
    azusa.clear();
    azusa.set_source_color(Color::Lime);
    azusa.set_border_color(Color::Maroon);
    azusa.move_to(2, 3);
    azusa.fill_rectangle(9, 6);
    azusa.move_to(10, 1);
    azusa.draw_rectangle(2, 8, 12);
    let mut a = PixelCanvas::new(16, 16);
    let mut b = PixelCanvas::new(16, 16);
    a.clear(WHITE);
    b.clear(WHITE);
    let ra = a.replay(azusa.get_ctx());
    let rb = b.replay(azusa.get_ctx());
    assert_eq!(ra, rb);
    assert_eq!(a.as_bytes(), b.as_bytes());
}

#[test]
fn frame_starting_with_clear_ignores_old_contents() {
    let cmds = vec![DrawTarget::Clear(Color::Teal), DrawTarget::DrawRectangle(Color::Red, 1, 1, 1, 3, 3)];
    let mut a = PixelCanvas::new(6, 6);
    let mut b = PixelCanvas::new(6, 6);
    b.clear(BLUE);
    a.replay(&cmds);
    b.replay(&cmds);
    assert_eq!(a.as_bytes(), b.as_bytes());
}

#[test]
fn border_then_fill_ordering() {
    let mut c = PixelCanvas::new(40, 40);
    c.clear(WHITE);
    let reports = c.execute(&DrawTarget::FillRectangle(Color::Blue, Color::Red, 10, 10, 20, 20));
    assert!(reports.is_empty());
    for i in 10..30 {
        assert_eq!(pixel(&c, i, 10), RED);
        assert_eq!(pixel(&c, i, 29), RED);
        assert_eq!(pixel(&c, 10, i), RED);
        assert_eq!(pixel(&c, 29, i), RED);
    }
    for y in 11..29 {
        for x in 11..29 {
            assert_eq!(pixel(&c, x, y), BLUE);
        }
    }
    assert_eq!(pixel(&c, 9, 10), WHITE);
    assert_eq!(pixel(&c, 30, 10), WHITE);
    assert_eq!(pixel(&c, 10, 30), WHITE);
    assert_eq!(pixel(&c, 10, 9), WHITE);
}

#[test]
fn fill_rectangle_past_right_edge_is_clipped() {
    let mut c = PixelCanvas::new(10, 10);
    c.clear(WHITE);
    let r = c.fill_rectangle(6, 2, 100, 3, RED);
    assert_eq!(r, Ok(()));
    assert_eq!(c.as_bytes().len(), 400);
    for y in 0..10 {
        for x in 0..10 {
            let inside = x >= 6 && (2..5).contains(&y);
            assert_eq!(pixel(&c, x, y), if inside { RED } else { WHITE });
        }
    }
}

#[test]
fn bordered_fill_past_edges_reports_nothing() {
    let mut c = PixelCanvas::new(10, 10);
    c.clear(WHITE);
    let reports = c.execute(&DrawTarget::FillRectangle(Color::Blue, Color::Red, 5, 5, 50, 50));
    assert!(reports.is_empty());
    assert_eq!(pixel(&c, 5, 9), RED);
    assert_eq!(pixel(&c, 9, 5), RED);
    assert_eq!(pixel(&c, 9, 9), BLUE);
    assert_eq!(pixel(&c, 4, 4), WHITE);
}

#[test]
fn navy_fill_scenario() {
    let mut azusa = Azusa::new();
    azusa.set_source_color(Color::Navy);
    azusa.clear();
    azusa.move_to(5, 5);
    azusa.fill_rectangle(90, 90);
    let mut s = ImageSurface::new(100, 100, "navy", ImageType::Png);
    let reports = azusa.draw(&mut s);
    assert!(reports.is_empty());
    let navy = (0, 0, 128, 255);
    let black = (0, 0, 0, 255);
    for y in 0..100 {
        for x in 0..100 {
            let inside = (5..95).contains(&x) && (5..95).contains(&y);
            let interior = (6..94).contains(&x) && (6..94).contains(&y);
            // The one-pixel ring is drawn in the border color, black by default;
            // everything else is navy: the fill inside, the cleared background outside.
            let expected = if inside && !interior { black } else { navy };
            assert_eq!(surface_pixel(&s, x, y), expected);
        }
    }
}

#[test]
fn resized_surface_cleared_to_aqua() {
    let mut s = ImageSurface::new(0, 0, "aqua", ImageType::Png);
    assert_eq!(s.as_bytes().len(), 0);
    s.resize(128, 128);
    let mut azusa = Azusa::new();
    azusa.set_source_color(Color::Aqua);
    azusa.clear();
    azusa.draw(&mut s);
    assert_eq!(s.as_bytes().len(), 128 * 128 * 4);
    for chunk in s.as_bytes().chunks(4) {
        assert_eq!(chunk, &[0, 255, 255, 255]);
    }
    assert_eq!(azusa::Surface::get_client_size(&s), (128, 128));
}

#[test]
fn overflowing_rectangle_is_reported_and_skipped() {
    let mut c = PixelCanvas::new(4, 4);
    c.clear(WHITE);
    let r = c.fill_rectangle(u32::MAX, 0, 2, 2, RED);
    assert_eq!(r, Err(GeometryError::Overflow { x: u32::MAX, y: 0, width: 2, height: 2 }));
    let r = c.draw_rectangle(0, 1, 2, u32::MAX, 1, RED);
    assert_eq!(r, Err(GeometryError::Overflow { x: 0, y: 1, width: 2, height: u32::MAX }));
    assert!(c.as_bytes().chunks(4).all(|p| p == [255, 255, 255, 255]));
}

#[test]
fn empty_rectangles_are_reported_and_skipped() {
    let mut c = PixelCanvas::new(4, 4);
    c.clear(WHITE);
    assert_eq!(c.fill_rectangle(1, 1, 0, 2, RED), Err(GeometryError::Empty { x: 1, y: 1, width: 0, height: 2 }));
    assert_eq!(c.fill_rectangle(4, 0, 2, 2, RED), Err(GeometryError::Empty { x: 4, y: 0, width: 2, height: 2 }));
    assert_eq!(c.fill_rectangle(0, 9, 2, 2, RED), Err(GeometryError::Empty { x: 0, y: 9, width: 2, height: 2 }));
    assert_eq!(c.draw_rectangle(0, 0, 2, 2, 0, RED), Err(GeometryError::Empty { x: 0, y: 0, width: 2, height: 2 }));
    assert!(c.as_bytes().chunks(4).all(|p| p == [255, 255, 255, 255]));
}

#[test]
fn bordered_fill_with_interior_off_canvas_reports_interior() {
    let mut c = PixelCanvas::new(4, 4);
    c.clear(WHITE);
    let reports = c.execute(&DrawTarget::FillRectangle(Color::Blue, Color::Red, 3, 0, 3, 3));
    assert_eq!(reports, vec![GeometryError::Empty { x: 4, y: 1, width: 1, height: 1 }]);
    assert_eq!(pixel(&c, 3, 0), RED);
    assert_eq!(pixel(&c, 3, 1), RED);
    assert_eq!(pixel(&c, 3, 2), RED);
    assert_eq!(pixel(&c, 3, 3), WHITE);
    assert_eq!(pixel(&c, 2, 1), WHITE);
}

#[test]
fn small_bordered_fill_reports_empty_interior() {
    let mut c = PixelCanvas::new(4, 4);
    c.clear(WHITE);
    let reports = c.execute(&DrawTarget::FillRectangle(Color::Blue, Color::Red, 0, 0, 2, 2));
    assert_eq!(reports, vec![GeometryError::Empty { x: 1, y: 1, width: 0, height: 0 }]);
    let reports = c.execute(&DrawTarget::FillRectangle(Color::Blue, Color::Red, 0, 0, 1, 5));
    assert_eq!(reports, vec![GeometryError::Empty { x: 1, y: 1, width: 0, height: 3 }]);
    assert_eq!(pixel(&c, 0, 0), RED);
    assert_eq!(pixel(&c, 1, 1), RED);
    assert_eq!(pixel(&c, 2, 2), WHITE);
}

#[test]
fn skipped_command_does_not_stop_the_frame() {
    let cmds = vec![
        DrawTarget::Clear(Color::White),
        DrawTarget::DrawRectangle(Color::Red, 50, 50, 1, 3, 3),
        DrawTarget::FillRectangle(Color::Blue, Color::Blue, 0, 0, 2, 2),
    ];
    let mut c = PixelCanvas::new(4, 4);
    let reports = c.replay(&cmds);
    assert_eq!(
        reports,
        vec![
            GeometryError::Empty { x: 50, y: 50, width: 3, height: 3 },
            GeometryError::Empty { x: 1, y: 1, width: 0, height: 0 },
        ]
    );
    assert_eq!(pixel(&c, 1, 1), BLUE);
    assert_eq!(pixel(&c, 3, 3), WHITE);
}

#[test]
fn outline_of_given_thickness() {
    let mut c = PixelCanvas::new(8, 8);
    c.clear(WHITE);
    assert_eq!(c.draw_rectangle(1, 1, 6, 6, 2, RED), Ok(()));
    for y in 0..8 {
        for x in 0..8 {
            let in_rect = (1..7).contains(&x) && (1..7).contains(&y);
            let in_inner = (3..5).contains(&x) && (3..5).contains(&y);
            assert_eq!(pixel(&c, x, y), if in_rect && !in_inner { RED } else { WHITE });
        }
    }
}

#[test]
fn thick_outline_covers_whole_rectangle() {
    let mut c = PixelCanvas::new(6, 6);
    c.clear(WHITE);
    assert_eq!(c.draw_rectangle(1, 2, 3, 2, 9, BLUE), Ok(()));
    for y in 0..6 {
        for x in 0..6 {
            let inside = (1..4).contains(&x) && (2..4).contains(&y);
            assert_eq!(pixel(&c, x, y), if inside { BLUE } else { WHITE });
        }
    }
}

#[test]
fn later_commands_paint_over_earlier_ones() {
    let cmds = vec![
        DrawTarget::Clear(Color::Black),
        DrawTarget::FillRectangle(Color::Red, Color::Red, 0, 0, 4, 4),
        DrawTarget::FillRectangle(Color::Blue, Color::Blue, 1, 1, 2, 2),
    ];
    let mut c = PixelCanvas::new(4, 4);
    c.replay(&cmds);
    assert_eq!(pixel(&c, 0, 0), RED);
    assert_eq!(pixel(&c, 1, 1), BLUE);
    assert_eq!(pixel(&c, 2, 2), BLUE);
    assert_eq!(pixel(&c, 3, 3), RED);
}

#[test]
fn text_is_not_rasterized() {
    let mut c = PixelCanvas::new(4, 4);
    c.clear(WHITE);
    let reports = c.execute(&DrawTarget::DrawText(
        Color::Red,
        azusa::FontInfo::new(10, false, false),
        0,
        0,
        4,
        4,
        azusa::UString::new("x"),
    ));
    assert!(reports.is_empty());
    assert!(c.as_bytes().chunks(4).all(|p| p == [255, 255, 255, 255]));
}

#[test]
fn size_fits_bound() {
    assert!(azusa::canvas::size_fits(128, 128));
    assert!(azusa::canvas::size_fits(0, u32::MAX));
    assert!(!azusa::canvas::size_fits(65536, 65536));
    assert!(azusa::canvas::size_fits(32768, 32767));
}
