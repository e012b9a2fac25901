//! The looks of the browser's buttons, by the state a button is in.
//!
//! Lengths are whole display pixels and opacities whole percents, which is
//! all these looks use.

use vstd::prelude::*;

verus! {

/// The state a button is in.
#[derive(Clone, Copy, Debug, PartialEq, Eq, Structural)]
pub enum Status {
    Active,
    Hovered,
    Pressed,
    Disabled,
}

/// A colour: red, green and blue of 255, and opacity in percent.
#[derive(Clone, Copy, Debug, PartialEq, Eq, Structural)]
pub struct Rgba {
    pub r: u8,
    pub g: u8,
    pub b: u8,
    pub alpha_percent: u8,
}

/// The border of a button.
#[derive(Clone, Copy, Debug, PartialEq, Eq, Structural)]
pub struct BorderStyle {
    pub radius: u8,
    pub width: u8,
    pub color: Rgba,
}

/// The shadow under a button, cast straight down.
#[derive(Clone, Copy, Debug, PartialEq, Eq, Structural)]
pub struct ShadowStyle {
    pub offset_y: u8,
    pub blur_radius: u8,
    pub color: Rgba,
}

/// The look of a button; `shadow` is `None` where the button casts none.
#[derive(Clone, Copy, Debug, PartialEq, Eq, Structural)]
pub struct Style {
    pub background: Rgba,
    pub text_color: Rgba,
    pub border: BorderStyle,
    pub shadow: Option<ShadowStyle>,
}

/// A fully opaque colour.
pub open spec fn opaque(r: u8, g: u8, b: u8) -> Rgba {
    Rgba { r, g, b, alpha_percent: 100 }
}

/// A colour of the given opacity.
pub open spec fn tinted(r: u8, g: u8, b: u8, alpha_percent: u8) -> Rgba {
    Rgba { r, g, b, alpha_percent }
}

/// No colour at all.
pub open spec fn clear() -> Rgba {
    Rgba { r: 0, g: 0, b: 0, alpha_percent: 0 }
}

/// The accent colour.
pub open spec fn accent() -> Rgba {
    opaque(13, 110, 253)
}

/// The accent colour of a pressed button.
pub open spec fn accent_pressed() -> Rgba {
    opaque(10, 88, 202)
}

/// The colour of ordinary text.
pub open spec fn ink() -> Rgba {
    opaque(33, 37, 41)
}

/// The colour of the text of a disabled button.
pub open spec fn faded_ink() -> Rgba {
    opaque(108, 117, 125)
}

/// The look of the plain button of the tool bar: light grey, darker the
/// further it is pushed, with a thin border and a faint shadow.
pub open spec fn spec_default(status: Status) -> Style {
    Style {
        background: match status {
            Status::Active => opaque(248, 249, 250),
            Status::Hovered => opaque(233, 236, 239),
            Status::Pressed => opaque(222, 226, 230),
            Status::Disabled => opaque(248, 249, 250),
        },
        text_color: if status == Status::Disabled {
            faded_ink()
        } else {
            ink()
        },
        border: BorderStyle { radius: 6, width: 1, color: opaque(222, 226, 230) },
        shadow: Some(ShadowStyle { offset_y: 1, blur_radius: 2, color: tinted(0, 0, 0, 10) }),
    }
}

/// The look of the button of the main action: the accent colour under
/// white text, without a border, on a shadow of the accent colour.
pub open spec fn spec_primary(status: Status) -> Style {
    Style {
        background: match status {
            Status::Active => accent(),
            Status::Hovered => opaque(0, 86, 179),
            Status::Pressed => accent_pressed(),
            Status::Disabled => faded_ink(),
        },
        text_color: if status == Status::Disabled {
            opaque(248, 249, 250)
        } else {
            opaque(255, 255, 255)
        },
        border: BorderStyle { radius: 8, width: 0, color: clear() },
        shadow: Some(ShadowStyle { offset_y: 2, blur_radius: 4, color: tinted(13, 110, 253, 25) }),
    }
}

/// The look of a button that shows only when touched: no background until
/// it is hovered or pressed, no border and no shadow.
pub open spec fn spec_transparent(status: Status) -> Style {
    Style {
        background: match status {
            Status::Active => clear(),
            Status::Hovered => tinted(0, 0, 0, 5),
            Status::Pressed => tinted(0, 0, 0, 10),
            Status::Disabled => clear(),
        },
        text_color: if status == Status::Disabled {
            faded_ink()
        } else {
            ink()
        },
        border: BorderStyle { radius: 4, width: 0, color: clear() },
        shadow: None,
    }
}

/// The look of the button of the selected choice: a tint of the accent
/// colour inside a border of it.
pub open spec fn spec_highlighted(status: Status) -> Style {
    Style {
        background: match status {
            Status::Active => tinted(13, 110, 253, 10),
            Status::Hovered => tinted(13, 110, 253, 15),
            Status::Pressed => tinted(13, 110, 253, 20),
            Status::Disabled => tinted(108, 117, 125, 10),
        },
        text_color: ink(),
        border: BorderStyle {
            radius: 6,
            width: 2,
            color: match status {
                Status::Active => accent(),
                Status::Hovered => accent(),
                Status::Pressed => accent_pressed(),
                Status::Disabled => faded_ink(),
            },
        },
        shadow: Some(ShadowStyle { offset_y: 1, blur_radius: 3, color: tinted(13, 110, 253, 20) }),
    }
}

/// The look of an entry of the file tree: text alone, tinted with the
/// accent colour when touched.
pub open spec fn spec_sidebar_item(status: Status) -> Style {
    Style {
        background: match status {
            Status::Active => clear(),
            Status::Hovered => tinted(13, 110, 253, 8),
            Status::Pressed => tinted(13, 110, 253, 12),
            Status::Disabled => clear(),
        },
        text_color: match status {
            Status::Active => opaque(52, 58, 64),
            Status::Hovered => accent(),
            Status::Pressed => accent_pressed(),
            Status::Disabled => opaque(173, 181, 189),
        },
        border: BorderStyle { radius: 4, width: 0, color: clear() },
        shadow: None,
    }
}

/// The look of a thumbnail of the collection: a white card whose border
/// and shadow take the accent colour when hovered.
pub open spec fn spec_thumbnail(status: Status) -> Style {
    Style {
        background: match status {
            Status::Active => opaque(255, 255, 255),
            Status::Hovered => opaque(255, 255, 255),
            Status::Pressed => opaque(248, 249, 250),
            Status::Disabled => opaque(248, 249, 250),
        },
        text_color: ink(),
        border: BorderStyle {
            radius: 8,
            width: 2,
            color: match status {
                Status::Active => opaque(222, 226, 230),
                Status::Hovered => accent(),
                Status::Pressed => accent_pressed(),
                Status::Disabled => opaque(222, 226, 230),
            },
        },
        shadow: match status {
            Status::Active => Some(
                ShadowStyle { offset_y: 1, blur_radius: 3, color: tinted(0, 0, 0, 10) },
            ),
            Status::Hovered => Some(
                ShadowStyle { offset_y: 2, blur_radius: 6, color: tinted(13, 110, 253, 25) },
            ),
            Status::Pressed => Some(
                ShadowStyle { offset_y: 1, blur_radius: 2, color: tinted(0, 0, 0, 15) },
            ),
            Status::Disabled => None,
        },
    }
}

/// The look of the thumbnail of the current image: the card lifted on a
/// deep shadow, inside a thick border of the accent colour.
pub open spec fn spec_thumbnail_selected(status: Status) -> Style {
    Style {
        background: if status == Status::Disabled {
            opaque(248, 249, 250)
        } else {
            opaque(255, 255, 255)
        },
        text_color: ink(),
        border: BorderStyle { radius: 8, width: 3, color: accent() },
        shadow: if status == Status::Disabled {
            None
        } else {
            Some(ShadowStyle { offset_y: 4, blur_radius: 12, color: tinted(13, 110, 253, 40) })
        },
    }
}

fn rgba(r: u8, g: u8, b: u8, alpha_percent: u8) -> (c: Rgba)
    ensures
        c == tinted(r, g, b, alpha_percent),
{
    Rgba { r, g, b, alpha_percent }
}

/// The look of the plain button of the tool bar.
pub fn default(status: Status) -> (style: Style)
    ensures
        style == spec_default(status),
{
    let (background, text_color) = match status {
        Status::Active => (rgba(248, 249, 250, 100), rgba(33, 37, 41, 100)),
        Status::Hovered => (rgba(233, 236, 239, 100), rgba(33, 37, 41, 100)),
        Status::Pressed => (rgba(222, 226, 230, 100), rgba(33, 37, 41, 100)),
        Status::Disabled => (rgba(248, 249, 250, 100), rgba(108, 117, 125, 100)),
    };
    Style {
        background,
        text_color,
        border: BorderStyle { radius: 6, width: 1, color: rgba(222, 226, 230, 100) },
        shadow: Some(ShadowStyle { offset_y: 1, blur_radius: 2, color: rgba(0, 0, 0, 10) }),
    }
}

/// The look of the button of the main action.
pub fn primary(status: Status) -> (style: Style)
    ensures
        style == spec_primary(status),
{
    let (background, text_color) = match status {
        Status::Active => (rgba(13, 110, 253, 100), rgba(255, 255, 255, 100)),
        Status::Hovered => (rgba(0, 86, 179, 100), rgba(255, 255, 255, 100)),
        Status::Pressed => (rgba(10, 88, 202, 100), rgba(255, 255, 255, 100)),
        Status::Disabled => (rgba(108, 117, 125, 100), rgba(248, 249, 250, 100)),
    };
    Style {
        background,
        text_color,
        border: BorderStyle { radius: 8, width: 0, color: rgba(0, 0, 0, 0) },
        shadow: Some(ShadowStyle { offset_y: 2, blur_radius: 4, color: rgba(13, 110, 253, 25) }),
    }
}

/// The look of a button that shows only when touched.
pub fn transparent(status: Status) -> (style: Style)
    ensures
        style == spec_transparent(status),
{
    let (background, text_color) = match status {
        Status::Active => (rgba(0, 0, 0, 0), rgba(33, 37, 41, 100)),
        Status::Hovered => (rgba(0, 0, 0, 5), rgba(33, 37, 41, 100)),
        Status::Pressed => (rgba(0, 0, 0, 10), rgba(33, 37, 41, 100)),
        Status::Disabled => (rgba(0, 0, 0, 0), rgba(108, 117, 125, 100)),
    };
    Style {
        background,
        text_color,
        border: BorderStyle { radius: 4, width: 0, color: rgba(0, 0, 0, 0) },
        shadow: None,
    }
}

/// The look of the button of the selected choice.
pub fn highlighted(status: Status) -> (style: Style)
    ensures
        style == spec_highlighted(status),
{
    let (background, border_color) = match status {
        Status::Active => (rgba(13, 110, 253, 10), rgba(13, 110, 253, 100)),
        Status::Hovered => (rgba(13, 110, 253, 15), rgba(13, 110, 253, 100)),
        Status::Pressed => (rgba(13, 110, 253, 20), rgba(10, 88, 202, 100)),
        Status::Disabled => (rgba(108, 117, 125, 10), rgba(108, 117, 125, 100)),
    };
    Style {
        background,
        text_color: rgba(33, 37, 41, 100),
        border: BorderStyle { radius: 6, width: 2, color: border_color },
        shadow: Some(ShadowStyle { offset_y: 1, blur_radius: 3, color: rgba(13, 110, 253, 20) }),
    }
}

/// The look of an entry of the file tree.
pub fn sidebar_item(status: Status) -> (style: Style)
    ensures
        style == spec_sidebar_item(status),
{
    let (background, text_color) = match status {
        Status::Active => (rgba(0, 0, 0, 0), rgba(52, 58, 64, 100)),
        Status::Hovered => (rgba(13, 110, 253, 8), rgba(13, 110, 253, 100)),
        Status::Pressed => (rgba(13, 110, 253, 12), rgba(10, 88, 202, 100)),
        Status::Disabled => (rgba(0, 0, 0, 0), rgba(173, 181, 189, 100)),
    };
    Style {
        background,
        text_color,
        border: BorderStyle { radius: 4, width: 0, color: rgba(0, 0, 0, 0) },
        shadow: None,
    }
}

/// The look of a thumbnail of the collection.
pub fn thumbnail(status: Status) -> (style: Style)
    ensures
        style == spec_thumbnail(status),
{
    let (background, border_color, shadow) = match status {
        Status::Active => (
            rgba(255, 255, 255, 100),
            rgba(222, 226, 230, 100),
            Some(ShadowStyle { offset_y: 1, blur_radius: 3, color: rgba(0, 0, 0, 10) }),
        ),
        Status::Hovered => (
            rgba(255, 255, 255, 100),
            rgba(13, 110, 253, 100),
            Some(ShadowStyle { offset_y: 2, blur_radius: 6, color: rgba(13, 110, 253, 25) }),
        ),
        Status::Pressed => (
            rgba(248, 249, 250, 100),
            rgba(10, 88, 202, 100),
            Some(ShadowStyle { offset_y: 1, blur_radius: 2, color: rgba(0, 0, 0, 15) }),
        ),
        Status::Disabled => (rgba(248, 249, 250, 100), rgba(222, 226, 230, 100), None),
    };
    Style {
        background,
        text_color: rgba(33, 37, 41, 100),
        border: BorderStyle { radius: 8, width: 2, color: border_color },
        shadow,
    }
}

/// The look of the thumbnail of the current image.
pub fn thumbnail_selected(status: Status) -> (style: Style)
    ensures
        style == spec_thumbnail_selected(status),
{
    let (background, shadow) = match status {
        Status::Active | Status::Hovered | Status::Pressed => (
            rgba(255, 255, 255, 100),
            Some(ShadowStyle { offset_y: 4, blur_radius: 12, color: rgba(13, 110, 253, 40) }),
        ),
        Status::Disabled => (rgba(248, 249, 250, 100), None),
    };
    Style {
        background,
        text_color: rgba(33, 37, 41, 100),
        border: BorderStyle { radius: 8, width: 3, color: rgba(13, 110, 253, 100) },
        shadow,
    }
}

} // verus!
