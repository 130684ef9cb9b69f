use azusa::{Azusa, Color, DrawTarget, FontInfo, UString};

#[test]
fn new_context_is_empty() {
    let azusa = Azusa::new();
    assert!(azusa.get_ctx().is_empty());
}

#[test]
fn clear_resets_buffer_to_one_command() {
    let mut azusa = Azusa::new();
    azusa.set_source_color(Color::Navy);
    azusa.clear();
    azusa.fill_rectangle(10, 10);
    azusa.draw_rectangle(2, 5, 5);
    assert_eq!(azusa.get_ctx().len(), 3);
    azusa.set_source_color(Color::Teal);
    azusa.clear();
    assert_eq!(azusa.get_ctx(), &[DrawTarget::Clear(Color::Teal)][..]);
}

#[test]
fn clear_on_empty_context_gives_one_command() {
    let mut azusa = Azusa::new();
    azusa.clear();
    assert_eq!(azusa.get_ctx(), &[DrawTarget::Clear(Color::Black)][..]);
}

#[test]
fn commands_snapshot_state_at_record_time() {
    let mut azusa = Azusa::new();
    azusa.set_source_color(Color::Red);
    azusa.set_border_color(Color::Blue);
    azusa.move_to(3, 4);
    azusa.fill_rectangle(10, 20);
    azusa.set_source_color(Color::Green);
    azusa.move_to(7, 8);
    azusa.draw_rectangle(2, 30, 40);
    azusa.set_source_color(Color::Purple);
    azusa.draw_text(50, 60, UString::new("hi"), FontInfo::new(12, true, false));
    azusa.set_source_color(Color::White);
    azusa.set_border_color(Color::White);
    azusa.move_to(0, 0);
    let expected = vec![
        DrawTarget::FillRectangle(Color::Red, Color::Blue, 3, 4, 10, 20),
        DrawTarget::DrawRectangle(Color::Green, 7, 8, 2, 30, 40),
        DrawTarget::DrawText(Color::Purple, FontInfo::new(12, true, false), 7, 8, 50, 60, UString::new("hi")),
    ];
    assert_eq!(azusa.get_ctx(), &expected[..]);
}

#[test]
fn draw_rectangle_records_stroke_before_size() {
    let mut azusa = Azusa::new();
    azusa.set_source_color(Color::Blue);
    azusa.clear();
    azusa.set_source_color(Color::Navy);
    azusa.move_to(5, 5);
    azusa.draw_rectangle(1, 90, 90);
    assert_eq!(
        azusa.get_ctx(),
        &[DrawTarget::Clear(Color::Blue), DrawTarget::DrawRectangle(Color::Navy, 5, 5, 1, 90, 90)][..]
    );
}

#[test]
fn ustring_from_string() {
    let u = UString::from(String::from("ok"));
    assert_eq!(u.units(), &[111u16, 107, 0][..]);
    assert_eq!(u, UString::new("ok"));
}

#[test]
fn get_ctx_does_not_consume() {
    let mut azusa = Azusa::new();
    azusa.clear();
    azusa.fill_rectangle(1, 1);
    let first = azusa.get_ctx().to_vec();
    let second = azusa.get_ctx().to_vec();
    assert_eq!(first, second);
    assert_eq!(first.len(), 2);
}

#[test]
fn ustring_is_utf16_with_terminator() {
    assert_eq!(UString::new("ab").units(), &[97u16, 98, 0][..]);
    assert_eq!(UString::new("").units(), &[0u16][..]);
    assert_eq!(UString::new("\u{e9}").units(), &[0xE9u16, 0][..]);
    assert_eq!(UString::new("\u{1F600}").units(), &[0xD83Du16, 0xDE00, 0][..]);
}

#[test]
fn font_info_keeps_fields() {
    let f = FontInfo::new(14, false, true);
    assert_eq!(f.0, 14);
    assert!(!f.1);
    assert!(f.2);
}

#[test]
fn color_table_values() {
    assert_eq!(Color::Red.rgba(), (255, 0, 0, 255));
    assert_eq!(Color::Navy.rgba(), (0, 0, 128, 255));
    assert_eq!(Color::Aqua.rgba(), (0, 255, 255, 255));
    assert_eq!(Color::Silver.rgba(), (192, 192, 192, 192));
    assert_eq!(Color::Olive.rgba(), (128, 128, 0, 255));
    assert_eq!(Color::Black.rgba(), (0, 0, 0, 255));
}
