use iced_form::Style;

#[test]
fn default_style() {
    assert_eq!(Style::default(), Style {});
}
