//! The head-up display: four blocks of text in the corners of the viewport,
//! each with the directions that a text layouter needs.
//!
//! The numbers arrive as text: the caller renders each number of the pose
//! as it wants it read. Lengths are counted in half pixels, so that half a
//! viewport is a whole number.

use vstd::prelude::*;

verus! {

/// The height of the font, in pixels.
pub const FONT_SIZE: u32 = 18;

/// Half pixels in a pixel.
pub const HALF_PIXELS: i64 = 2;

/// Three numbers, rendered.
#[derive(Clone, Debug, PartialEq, Eq)]
pub struct Triple {
    pub x: String,
    pub y: String,
    pub z: String,
}

/// The numbers of a pose, rendered.
#[derive(Clone, Debug, PartialEq, Eq)]
pub struct Numerals {
    pub object_position: Triple,
    pub rot: Triple,
    pub view_position: Triple,
    pub scaling_factor: String,
    pub view_direction: Triple,
}

/// The side of its position on which a block of text is laid out.
#[derive(Clone, Copy, Debug, PartialEq, Eq, Structural)]
pub enum HorizontalAlign {
    /// The text starts at the position.
    Left,
    /// The text ends at the position.
    Right,
}

/// A place on the screen, from the top left corner, in half pixels.
#[derive(Clone, Copy, Debug, PartialEq, Eq, Structural)]
pub struct Point {
    pub x: i64,
    pub y: i64,
}

/// A width and a height, in half pixels.
#[derive(Clone, Copy, Debug, PartialEq, Eq, Structural)]
pub struct Extent {
    pub width: i64,
    pub height: i64,
}

/// A block of text and where to lay it out.
#[derive(Clone, Debug, PartialEq, Eq)]
pub struct Section {
    pub text: String,
    /// The height of the font, in pixels.
    pub scale: u32,
    pub screen_position: Point,
    /// The width and height within which the text is wrapped; `None` for
    /// no limit.
    pub bounds: Option<Extent>,
    pub h_align: HorizontalAlign,
}

/// The four blocks of the display.
#[derive(Clone, Debug, PartialEq, Eq)]
pub struct Hud {
    /// Position and rotation of the object.
    pub top_left: Section,
    /// Position of the camera.
    pub top_right: Section,
    /// The scaling factor.
    pub bottom_left: Section,
    /// Direction of the camera.
    pub bottom_right: Section,
}

/// The view that lays the numbers of the pose over the picture.
#[derive(Clone, Copy, Debug, PartialEq, Eq, Structural)]
pub struct HudView {
    /// The height of the font, in pixels.
    pub font_size: u32,
}

/// `(x=.., y=.., z=..)`, a line break, `(rx=.., ry=.., rz=..)`.
pub open spec fn coordinates_text(position: Triple, rot: Triple) -> Seq<char> {
    "(x="@ + position.x@ + ", y="@ + position.y@ + ", z="@ + position.z@ + ")\n(rx="@ + rot.x@
        + ", ry="@ + rot.y@ + ", rz="@ + rot.z@ + ")"@
}

/// `(x=.., y=.., z=..)`.
pub open spec fn view_coordinates_text(position: Triple) -> Seq<char> {
    "(x="@ + position.x@ + ", y="@ + position.y@ + ", z="@ + position.z@ + ")"@
}

/// `Scaling factor: ..`.
pub open spec fn scaling_factor_text(factor: Seq<char>) -> Seq<char> {
    "Scaling factor: "@ + factor
}

/// `Direction (.., .., ..)`.
pub open spec fn direction_text(direction: Triple) -> Seq<char> {
    "Direction ("@ + direction.x@ + ", "@ + direction.y@ + ", "@ + direction.z@ + ")"@
}

/// The distance of the bottom line from the top of a viewport `height`
/// pixels high, in half pixels: the font and one pixel above the lower
/// edge.
pub open spec fn bottom_line(font_size: u32, height: u32) -> int {
    HALF_PIXELS * (height - (font_size + 1))
}

impl HudView {
    /// `hud` is what this view shows of `numerals` on a viewport of `width`
    /// by `height` pixels.
    pub open spec fn shows(self, numerals: Numerals, width: u32, height: u32, hud: Hud) -> bool {
        &&& hud.top_left.text@ == coordinates_text(numerals.object_position, numerals.rot)
        &&& hud.top_left.scale == self.font_size
        &&& hud.top_left.screen_position == (Point { x: 0, y: 0 })
        &&& hud.top_left.bounds == Some(
            Extent { width: (HALF_PIXELS * width) as i64, height: (HALF_PIXELS * height / 2) as i64 },
        )
        &&& hud.top_left.h_align == HorizontalAlign::Left
        &&& hud.top_right.text@ == view_coordinates_text(numerals.view_position)
        &&& hud.top_right.scale == self.font_size
        &&& hud.top_right.screen_position == (Point { x: (HALF_PIXELS * width) as i64, y: 0 })
        &&& hud.top_right.bounds == Some(
            Extent { width: (HALF_PIXELS * width) as i64, height: (HALF_PIXELS * height) as i64 },
        )
        &&& hud.top_right.h_align == HorizontalAlign::Right
        &&& hud.bottom_left.text@ == scaling_factor_text(numerals.scaling_factor@)
        &&& hud.bottom_left.scale == self.font_size
        &&& hud.bottom_left.screen_position == (Point {
            x: 0,
            y: bottom_line(self.font_size, height) as i64,
        })
        &&& hud.bottom_left.bounds is None
        &&& hud.bottom_left.h_align == HorizontalAlign::Left
        &&& hud.bottom_right.text@ == direction_text(numerals.view_direction)
        &&& hud.bottom_right.scale == self.font_size
        &&& hud.bottom_right.screen_position == (Point {
            x: (HALF_PIXELS * width) as i64,
            y: bottom_line(self.font_size, height) as i64,
        })
        &&& hud.bottom_right.bounds is None
        &&& hud.bottom_right.h_align == HorizontalAlign::Right
    }

    /// The display in the font of [`FONT_SIZE`] pixels.
    pub fn new() -> (view: HudView)
        ensures
            view.font_size == FONT_SIZE,
    {
        HudView { font_size: FONT_SIZE }
    }

    /// Composes the four blocks for a viewport of `width` by `height`
    /// pixels: the object's position and rotation at the top left, wrapped
    /// within the upper half; the camera's position at the top right; the
    /// scaling factor at the bottom left; the camera's direction at the
    /// bottom right. The blocks on the right end at the right edge.
    pub fn draw(&self, numerals: &Numerals, width: u32, height: u32) -> (hud: Hud)
        ensures
            self.shows(*numerals, width, height, hud),
    {
        let right: i64 = HALF_PIXELS * (width as i64);
        let bottom: i64 = HALF_PIXELS * (height as i64 - (self.font_size as i64 + 1));
        let mut coordinates = triple_text("(x=", &numerals.object_position, ", y=", ", z=");
        coordinates.append(")\n(rx=");
        coordinates.append(numerals.rot.x.as_str());
        coordinates.append(", ry=");
        coordinates.append(numerals.rot.y.as_str());
        coordinates.append(", rz=");
        coordinates.append(numerals.rot.z.as_str());
        coordinates.append(")");
        let mut view_coordinates = triple_text("(x=", &numerals.view_position, ", y=", ", z=");
        view_coordinates.append(")");
        let mut scaling_factor = String::from_str("Scaling factor: ");
        scaling_factor.append(numerals.scaling_factor.as_str());
        let mut direction = triple_text("Direction (", &numerals.view_direction, ", ", ", ");
        direction.append(")");
        Hud {
            top_left: Section {
                text: coordinates,
                scale: self.font_size,
                screen_position: Point { x: 0, y: 0 },
                bounds: Some(Extent { width: right, height: HALF_PIXELS * (height as i64) / 2 }),
                h_align: HorizontalAlign::Left,
            },
            top_right: Section {
                text: view_coordinates,
                scale: self.font_size,
                screen_position: Point { x: right, y: 0 },
                bounds: Some(Extent { width: right, height: HALF_PIXELS * (height as i64) }),
                h_align: HorizontalAlign::Right,
            },
            bottom_left: Section {
                text: scaling_factor,
                scale: self.font_size,
                screen_position: Point { x: 0, y: bottom },
                bounds: None,
                h_align: HorizontalAlign::Left,
            },
            bottom_right: Section {
                text: direction,
                scale: self.font_size,
                screen_position: Point { x: right, y: bottom },
                bounds: None,
                h_align: HorizontalAlign::Right,
            },
        }
    }
}

/// `before`, then the three numbers with `second` and `third` in front of
/// the second and the third.
fn triple_text(before: &str, numbers: &Triple, second: &str, third: &str) -> (text: String)
    ensures
        text@ == before@ + numbers.x@ + second@ + numbers.y@ + third@ + numbers.z@,
{
    let mut text = String::from_str(before);
    text.append(numbers.x.as_str());
    text.append(second);
    text.append(numbers.y.as_str());
    text.append(third);
    text.append(numbers.z.as_str());
    text
}

} // verus!
