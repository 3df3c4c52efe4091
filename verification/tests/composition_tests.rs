use avatar_gen::composition::build_composition;
use avatar_gen::composition::compose_with_first_name_last_name;
use avatar_gen::composition::compose_with_name;
use avatar_gen::initials::extract_initials;
use avatar_gen::palette::rgb;
use avatar_gen::palette::select_palette;

#[test]
fn composition_has_the_fixed_parameters() {
    let c = compose_with_name("John Smith");
    assert_eq!(c.canvas_width, 512);
    assert_eq!(c.canvas_height, 512);
    assert_eq!(c.gradient_angle_degrees, 135);
    assert_eq!(c.text_color, rgb(255, 255, 255));
    assert_eq!(c.font_size_px, 192);
    assert_eq!(c.font_weight, 600);
    assert!(c.center_horizontal);
    assert!(c.center_vertical);
}

#[test]
fn composition_text_is_the_initials() {
    let c = compose_with_name("John Smith");
    assert_eq!(c.text, "JS");
    let c = compose_with_name("");
    assert_eq!(c.text, "?");
}

#[test]
fn composition_gradient_runs_from_palette_start_to_end() {
    let palette = select_palette("John Smith");
    let c = compose_with_name("John Smith");
    assert_eq!(c.stops.len(), 2);
    assert_eq!(c.stops[0].color, palette.start);
    assert_eq!(c.stops[0].position_percent, 0);
    assert_eq!(c.stops[1].color, palette.end);
    assert_eq!(c.stops[1].position_percent, 100);
}

#[test]
fn repeated_composition_is_identical() {
    let first = compose_with_name("Jane Doe");
    let second = compose_with_name("Jane Doe");
    assert_eq!(first, second);
}

#[test]
fn first_and_last_name_match_the_joined_name() {
    let joined = compose_with_name("Jane Doe");
    let split = compose_with_first_name_last_name("Jane", "Doe");
    assert_eq!(joined, split);
}

#[test]
fn empty_first_and_last_names_match_a_single_space() {
    let joined = compose_with_name(" ");
    let split = compose_with_first_name_last_name("", "");
    assert_eq!(joined, split);
    assert_eq!(split.text, "?");
}

#[test]
fn build_composition_uses_its_arguments() {
    let initials = extract_initials("ada lovelace");
    let palette = select_palette("ada lovelace");
    let c = build_composition(initials, palette);
    assert_eq!(c.text, "AL");
    assert_eq!(c.stops[0].color, palette.start);
    assert_eq!(c.stops[1].color, palette.end);
}
