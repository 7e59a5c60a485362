use warper::numeric_input::{Event, NumericInput};

fn hue_input() -> NumericInput {
    NumericInput::new(
        "Hue Rotation".to_string(),
        0,
        0,
        360_000_000,
        1_000_000,
        0,
    )
}

#[test]
fn new_entry_formats_its_value() {
    let input = hue_input();
    assert_eq!(input.label, "Hue Rotation");
    assert_eq!(input.value, 0);
    assert_eq!(input.value_string, "0");
    assert_eq!(input.text_size, 15);
    assert_eq!(input.width, 150);
    assert_eq!(input.spacing, 10);
    let scaled = NumericInput::new("Noise Scale X".to_string(), 8_000_000, 500_000, 50_000_000, 100_000, 1);
    assert_eq!(scaled.value_string, "8.0");
}

#[test]
fn builders_adjust_layout() {
    let input = hue_input().text_size(12).width(90).spacing(5).decimals(1);
    assert_eq!(input.text_size, 12);
    assert_eq!(input.width, 90);
    assert_eq!(input.spacing, 5);
    assert_eq!(input.decimals, 1);
}

#[test]
fn slider_drag_rewrites_the_text_and_commits_on_release() {
    let mut input = hue_input().decimals(1);
    assert_eq!(input.update(Event::SliderChanged(2_500_000)), None);
    assert_eq!(input.value, 2_500_000);
    assert_eq!(input.value_string, "2.5");
    assert_eq!(input.update(Event::SliderReleased), Some(2_500_000));
}

#[test]
fn typed_text_commits_only_on_submission() {
    let mut input = hue_input();
    assert_eq!(input.update(Event::TextChanged("7.25".to_string())), None);
    assert_eq!(input.value, 0);
    assert_eq!(input.value_string, "7.25");
    assert_eq!(input.update(Event::TextSubmitted), Some(7_250_000));
    assert_eq!(input.value, 7_250_000);
}

#[test]
fn unparsable_text_submits_nothing() {
    let mut input = hue_input();
    input.update(Event::TextChanged("wide".to_string()));
    assert_eq!(input.update(Event::TextSubmitted), None);
    assert_eq!(input.value, 0);
    assert_eq!(input.value_string, "wide");
}
