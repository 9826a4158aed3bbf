use vstd::prelude::*;

verus! {

/// How the size of a graphic relates to a given size.
#[derive(Clone, Copy, PartialEq, Eq, Structural)]
pub enum SizeReration {
    /// The graphic exceeds the size in width or in height.
    Larger,
    /// The graphic fits and matches the size in width or in height.
    Equal,
    /// The graphic is strictly smaller in both width and height.
    Smaller,
    /// The graphic's size is unknown.
    Unknown,
}

/// The relation of a graphic of `gh_x` by `gh_y` to the size `size_x` by `size_y`.
pub open spec fn size_relation(gh_x: int, gh_y: int, size_x: int, size_y: int) -> SizeReration {
    if gh_x > size_x || gh_y > size_y {
        SizeReration::Larger
    } else if gh_x == size_x || gh_y == size_y {
        SizeReration::Equal
    } else {
        SizeReration::Smaller
    }
}

/// The relation of a graphic to `size_x` by `size_y`, given what reading its size
/// gave: `None` where the size could not be read, else its width and height.
pub open spec fn measured_relation(size: Option<(i32, i32)>, size_x: int, size_y: int) -> SizeReration {
    match size {
        None => SizeReration::Unknown,
        Some((gh_x, gh_y)) => size_relation(gh_x as int, gh_y as int, size_x, size_y),
    }
}

/// Classifies a graphic against `size_x` by `size_y`. `size` is what reading the
/// graphic's size gave (the graphics library reads it): `None` where the read
/// failed, which makes the relation unknown.
pub fn graph_to_size(size: Option<(i32, i32)>, size_x: i32, size_y: i32) -> (r: Option<SizeReration>)
    ensures
        r == Some(measured_relation(size, size_x as int, size_y as int)),
{
    let (gh_x, gh_y) = match size {
        None => {
            return Some(SizeReration::Unknown);
        },
        Some(xy) => xy,
    };
    if gh_x > size_x || gh_y > size_y {
        Some(SizeReration::Larger)
    } else if gh_x == size_x || gh_y == size_y {
        Some(SizeReration::Equal)
    } else {
        Some(SizeReration::Smaller)
    }
}

/// The text that names a relation in diagnostics.
pub open spec fn relation_text(r: SizeReration) -> Seq<char> {
    match r {
        SizeReration::Larger => "SizeReration:(Larger)"@,
        SizeReration::Equal => "SizeReration(Equal)"@,
        SizeReration::Smaller => "SizeReration(Smaller)"@,
        SizeReration::Unknown => "SizeReration(Unknown)"@,
    }
}

impl SizeReration {
    /// The diagnostic text of this relation.
    pub fn debug_text(&self) -> (r: String)
        ensures
            r@ == relation_text(*self),
    {
        match self {
            SizeReration::Larger => String::from_str("SizeReration:(Larger)"),
            SizeReration::Equal => String::from_str("SizeReration(Equal)"),
            SizeReration::Smaller => String::from_str("SizeReration(Smaller)"),
            SizeReration::Unknown => String::from_str("SizeReration(Unknown)"),
        }
    }
}

/// Width of the window.
pub const WINDOW_WIDTH: i32 = 640;

/// Height of the window.
pub const WINDOW_HEIGHT: i32 = 480;

/// Left edge of the place where the selected graphic is drawn.
pub const PICTURE_LEFT: i32 = 5;

/// Top edge of the place where the selected graphic is drawn.
pub const PICTURE_TOP: i32 = 80;

/// Right edge of the box that a stretched graphic fills: a third of the window's width.
pub const PICTURE_RIGHT: i32 = 218;

/// Bottom edge of the box that a stretched graphic fills: a third of the window's height.
pub const PICTURE_BOTTOM: i32 = 240;

/// What is drawn of the selected graphic in a frame.
#[derive(Clone, Copy, PartialEq, Eq, Structural, Debug)]
pub enum Picture {
    /// No graphic is drawn.
    Nothing,
    /// The graphic at its own size, with its top left corner at `(x, y)`.
    Plain { handle: i32, x: i32, y: i32 },
    /// The graphic stretched into the box from `(left, top)` to `(right, bottom)`.
    Stretched { handle: i32, left: i32, top: i32, right: i32, bottom: i32 },
}

/// The picture of graphic `handle`, given its relation to the window's size:
/// a graphic that is not smaller than the window is stretched into a third of it.
pub open spec fn picture_spec(kind: SizeReration, handle: i32) -> Picture {
    if kind != SizeReration::Smaller {
        Picture::Stretched {
            handle,
            left: PICTURE_LEFT,
            top: PICTURE_TOP,
            right: PICTURE_RIGHT,
            bottom: PICTURE_BOTTOM,
        }
    } else {
        Picture::Plain { handle, x: PICTURE_LEFT, y: PICTURE_TOP }
    }
}

/// How graphic `handle` is drawn, given its relation to the window's size.
pub fn picture_for(kind: SizeReration, handle: i32) -> (r: Picture)
    ensures
        r == picture_spec(kind, handle),
{
    if kind == SizeReration::Larger || kind != SizeReration::Smaller {
        Picture::Stretched {
            handle,
            left: PICTURE_LEFT,
            top: PICTURE_TOP,
            right: PICTURE_RIGHT,
            bottom: PICTURE_BOTTOM,
        }
    } else {
        Picture::Plain { handle, x: PICTURE_LEFT, y: PICTURE_TOP }
    }
}

} // verus!
