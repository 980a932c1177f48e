use piet_stdweb::font::WebFontBuilder;

#[test]
fn font_by_name_is_normal_weight_400() {
    let font = WebFontBuilder::by_name("Arial", "12").build().ok().unwrap();
    assert_eq!(font.get_font_string(), "normal 400 12px \"Arial\"");
}

#[test]
fn font_text_keeps_family_and_size_text() {
    let font = WebFontBuilder::by_name("DejaVu Sans Mono", "10.5").build().ok().unwrap();
    assert_eq!(font.get_font_string(), "normal 400 10.5px \"DejaVu Sans Mono\"");
    let copy = font.clone();
    assert_eq!(copy.get_font_string(), font.get_font_string());
}

#[test]
fn size_text_as_rust_prints_a_float() {
    let size = format!("{}", 16.0f64);
    let font = WebFontBuilder::by_name("serif", &size).build().ok().unwrap();
    assert_eq!(font.get_font_string(), "normal 400 16px \"serif\"");
}
