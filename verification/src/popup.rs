//! The editor popup: where its window goes and how its file is named.

use vstd::prelude::*;
use vstd::string::StringExecFns;

use crate::settings::NvimEditSettings;
use crate::terminal::WindowGeometry;

verus! {

/// How far below a text field the popup opens, in pixels.
pub const POPUP_GAP: i32 = 5;

/// The least width of a popup that takes its width from a text field.
pub const MIN_FIELD_WIDTH: u32 = 400;

/// The width of a popup that is centered on a window, unless the settings
/// give one.
pub const CENTERED_WIDTH: u32 = 500;

/// The name of the file that a session edits: it holds the session's
/// identifier.
pub fn session_file_name(session_id: &str) -> (name: String)
    ensures
        name@ == "edit_"@ + session_id@ + ".txt"@,
{
    String::from_str("edit_").concat(session_id).concat(".txt")
}

/// The width of a popup below a text field: the configured width, or the
/// width of the field, at least 400, where none is configured.
pub fn field_popup_width(settings: &NvimEditSettings, field_width: u32) -> (width: u32)
    ensures
        width == (if settings.popup_width > 0 {
            settings.popup_width
        } else if field_width >= MIN_FIELD_WIDTH {
            field_width
        } else {
            MIN_FIELD_WIDTH
        }),
{
    if settings.popup_width > 0 {
        settings.popup_width
    } else if field_width >= MIN_FIELD_WIDTH {
        field_width
    } else {
        MIN_FIELD_WIDTH
    }
}

/// The window of a popup below a text field whose left edge is at `x` and
/// whose lower edge is at `bottom`: it opens 5 pixels below the field.
pub fn field_popup_geometry(
    settings: &NvimEditSettings,
    x: i32,
    bottom: i32,
    field_width: u32,
) -> (geometry: WindowGeometry)
    requires
        bottom + POPUP_GAP <= i32::MAX,
    ensures
        geometry == (WindowGeometry {
            x,
            y: (bottom + POPUP_GAP) as i32,
            width: if settings.popup_width > 0 {
                settings.popup_width
            } else if field_width >= MIN_FIELD_WIDTH {
                field_width
            } else {
                MIN_FIELD_WIDTH
            },
            height: settings.popup_height,
        }),
{
    WindowGeometry {
        x,
        y: bottom + POPUP_GAP,
        width: field_popup_width(settings, field_width),
        height: settings.popup_height,
    }
}

/// The size of a popup that is centered on a window: the configured width,
/// or 500 where none is configured, and the configured height.
pub fn centered_popup_size(settings: &NvimEditSettings) -> (size: (u32, u32))
    ensures
        size.0 == (if settings.popup_width > 0 {
            settings.popup_width
        } else {
            CENTERED_WIDTH
        }),
        size.1 == settings.popup_height,
{
    (
        if settings.popup_width > 0 {
            settings.popup_width
        } else {
            CENTERED_WIDTH
        },
        settings.popup_height,
    )
}

} // verus!
