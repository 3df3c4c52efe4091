//! Composition building: merges initials and a palette into a fixed-shape,
//! engine-agnostic description of one avatar — a square canvas, a two-stop
//! linear gradient background, and centered white text.

use crate::initials::extract_initials;
use crate::initials::initials_spec;
use crate::initials::lemma_initials_deterministic;
use crate::palette::palette_index;
use crate::palette::palette_table;
use crate::palette::rgb_spec;
use crate::palette::select_palette;
use crate::palette::Color;
use crate::palette::Palette;
use vstd::prelude::*;

verus! {

/// The edge length of the square canvas, in logical pixels.
pub const CANVAS_EDGE_PX: u32 = 512;

/// The angle of the background gradient, in degrees.
pub const GRADIENT_ANGLE_DEGREES: u16 = 135;

/// The font size of the initials, in logical pixels: 12/32 of the canvas
/// edge, so two characters comfortably fill the center.
pub const FONT_SIZE_PX: u32 = 192;

/// The font weight of the initials, on the 100 to 900 scale.
pub const FONT_WEIGHT: u16 = 600;

/// One color stop of the background gradient, at a position given in
/// percent of the gradient axis.
#[derive(Clone, Copy, Debug, PartialEq, Eq, Structural)]
pub struct GradientStop {
    pub color: Color,
    pub position_percent: u8,
}

/// The full description of one avatar, ready for a rendering engine:
/// canvas size, background gradient, and centered text. Immutable once
/// built; a pure function of the initials and the palette.
#[derive(Debug, PartialEq)]
pub struct CompositionSpec {
    pub canvas_width: u32,
    pub canvas_height: u32,
    pub gradient_angle_degrees: u16,
    pub stops: Vec<GradientStop>,
    pub text: String,
    pub text_color: Color,
    pub font_size_px: u32,
    pub font_weight: u16,
    pub center_horizontal: bool,
    pub center_vertical: bool,
}

/// The composition a name with contents `s` must produce: its initials as
/// text, its palette's colors at the two ends of the gradient, and the
/// fixed canvas and text parameters.
pub open spec fn composition_spec_for(s: Seq<char>, c: CompositionSpec) -> bool {
    &&& initials_spec(s, c.text@)
    &&& c.stops@.len() == 2
    &&& c.stops@[0] == (GradientStop {
        color: palette_table()[palette_index(s)].start,
        position_percent: 0,
    })
    &&& c.stops@[1] == (GradientStop {
        color: palette_table()[palette_index(s)].end,
        position_percent: 100,
    })
    &&& c.canvas_width == CANVAS_EDGE_PX
    &&& c.canvas_height == CANVAS_EDGE_PX
    &&& c.gradient_angle_degrees == GRADIENT_ANGLE_DEGREES
    &&& c.text_color == rgb_spec(255, 255, 255)
    &&& c.font_size_px == FONT_SIZE_PX
    &&& c.font_weight == FONT_WEIGHT
    &&& c.center_horizontal
    &&& c.center_vertical
}

/// Assembles a composition from initials and a palette: the text is the
/// initials, the gradient runs from the palette's start color at 0% to its
/// end color at 100%, and every other parameter is fixed.
pub fn build_composition(initials: String, palette: Palette) -> (c: CompositionSpec)
    ensures
        c.text@ == initials@,
        c.stops@.len() == 2,
        c.stops@[0] == (GradientStop { color: palette.start, position_percent: 0 }),
        c.stops@[1] == (GradientStop { color: palette.end, position_percent: 100 }),
        c.canvas_width == CANVAS_EDGE_PX,
        c.canvas_height == CANVAS_EDGE_PX,
        c.gradient_angle_degrees == GRADIENT_ANGLE_DEGREES,
        c.text_color == rgb_spec(255, 255, 255),
        c.font_size_px == FONT_SIZE_PX,
        c.font_weight == FONT_WEIGHT,
        c.center_horizontal,
        c.center_vertical,
{
    let mut stops: Vec<GradientStop> = Vec::new();
    stops.push(GradientStop { color: palette.start, position_percent: 0 });
    stops.push(GradientStop { color: palette.end, position_percent: 100 });
    CompositionSpec {
        canvas_width: CANVAS_EDGE_PX,
        canvas_height: CANVAS_EDGE_PX,
        gradient_angle_degrees: GRADIENT_ANGLE_DEGREES,
        stops,
        text: initials,
        text_color: Color { red: 255, green: 255, blue: 255, alpha: 255 },
        font_size_px: FONT_SIZE_PX,
        font_weight: FONT_WEIGHT,
        center_horizontal: true,
        center_vertical: true,
    }
}

/// Derives the avatar composition for a display name: initials and palette
/// both come from the same name contents. Never fails.
pub fn compose_with_name(name: &str) -> (c: CompositionSpec)
    ensures
        composition_spec_for(name@, c),
{
    let initials = extract_initials(name);
    let palette = select_palette(name);
    build_composition(initials, palette)
}

/// A first and a last name joined with a single space.
pub open spec fn joined(first: Seq<char>, last: Seq<char>) -> Seq<char> {
    first + seq![' '] + last
}

/// Derives the avatar composition for a first and a last name: the two are
/// joined with a single space and the joined name drives both the initials
/// and the palette, exactly as `compose_with_name` on the joined string.
pub fn compose_with_first_name_last_name(first_name: &str, last_name: &str) -> (c: CompositionSpec)
    ensures
        composition_spec_for(joined(first_name@, last_name@), c),
{
    proof {
        reveal_strlit(" ");
    }
    let combined = first_name.to_owned().concat(" ").concat(last_name);
    assert(combined@ =~= joined(first_name@, last_name@));
    compose_with_name(combined.as_str())
}

/// The composition is a function of the name's contents: any two
/// compositions that `composition_spec_for` accepts for the same contents
/// agree on every field, so repeated generation gives identical results,
/// and a joined first/last pair gives the same result as the one-string
/// form on the joined name.
pub proof fn lemma_composition_deterministic(s: Seq<char>, c1: CompositionSpec, c2: CompositionSpec)
    requires
        composition_spec_for(s, c1),
        composition_spec_for(s, c2),
    ensures
        c1.text@ == c2.text@,
        c1.stops@ == c2.stops@,
        c1.canvas_width == c2.canvas_width,
        c1.canvas_height == c2.canvas_height,
        c1.gradient_angle_degrees == c2.gradient_angle_degrees,
        c1.text_color == c2.text_color,
        c1.font_size_px == c2.font_size_px,
        c1.font_weight == c2.font_weight,
        c1.center_horizontal == c2.center_horizontal,
        c1.center_vertical == c2.center_vertical,
{
    lemma_initials_deterministic(s, c1.text@, c2.text@);
    assert(c1.stops@ =~= c2.stops@);
}

} // verus!
