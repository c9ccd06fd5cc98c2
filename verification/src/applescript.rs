//! Scripts that place and find the windows of terminals, and what their
//! answers say. Running the scripts is the caller's part.

use vstd::prelude::*;
use vstd::string::StringExecFns;

use crate::scan::{
    find_either, first_of_two, parse_signed, parse_unsigned, signed_of, to_chars, to_string,
    unsigned_of,
};
use crate::text::{decimal, push_decimal, push_signed_decimal, signed_decimal, trim, trimmed};

verus! {

/// Start of the script that resizes a window, up to the name of the application.
pub const RESIZE_0: &'static str = r#"
        tell application "System Events"
            tell process ""#;

/// The script that resizes a window, between the application and the width.
pub const RESIZE_1: &'static str = r#""
                try
                    set size of front window to {"#;

/// The text between width and height.
pub const RESIZE_2: &'static str = r#", "#;

/// End of the script that resizes a window.
pub const RESIZE_3: &'static str = r#"}
                end try
            end tell
        end tell
        "#;

/// The script that gives the front window of an application a size.
pub open spec fn set_window_size_script_text(app_name: Seq<char>, width: u32, height: u32) -> Seq<char> {
    RESIZE_0@
        + app_name
        + RESIZE_1@
        + decimal(width as nat)
        + RESIZE_2@
        + decimal(height as nat)
        + RESIZE_3@
}

/// Builds the script: the script that gives the front window of an application a size.
pub fn set_window_size_script(app_name: &str, width: u32, height: u32) -> (script: String)
    ensures
        script@ == set_window_size_script_text(app_name@, width, height),
{
    let mut script = String::from_str(RESIZE_0);
    script.append(app_name);
    script.append(RESIZE_1);
    push_decimal(&mut script, width as u64);
    script.append(RESIZE_2);
    push_decimal(&mut script, height as u64);
    script.append(RESIZE_3);
    assert(script@ =~= set_window_size_script_text(app_name@, width, height));
    script
}

/// Start of the script that moves a window, up to the name of the application.
pub const MOVE_0: &'static str = r#"
        tell application "System Events"
            tell process ""#;

/// The script that moves a window, between the application and the position.
pub const MOVE_1: &'static str = r#""
                try
                    set position of front window to {"#;

/// The text between the two parts of the position.
pub const MOVE_2: &'static str = r#", "#;

/// End of the script that moves a window.
pub const MOVE_3: &'static str = r#"}
                end try
            end tell
        end tell
        "#;

/// The script that moves the front window of an application to a position.
pub open spec fn move_window_script_text(app_name: Seq<char>, x: i32, y: i32) -> Seq<char> {
    MOVE_0@
        + app_name
        + MOVE_1@
        + signed_decimal(x as int)
        + MOVE_2@
        + signed_decimal(y as int)
        + MOVE_3@
}

/// Builds the script: the script that moves the front window of an application to a position.
pub fn move_window_script(app_name: &str, x: i32, y: i32) -> (script: String)
    ensures
        script@ == move_window_script_text(app_name@, x, y),
{
    let mut script = String::from_str(MOVE_0);
    script.append(app_name);
    script.append(MOVE_1);
    push_signed_decimal(&mut script, x as i64);
    script.append(MOVE_2);
    push_signed_decimal(&mut script, y as i64);
    script.append(MOVE_3);
    assert(script@ =~= move_window_script_text(app_name@, x, y));
    script
}

/// The script that lists the titles of the windows of Alacritty.
pub const LIST_WINDOW_TITLES: &'static str = r#"
        tell application "System Events"
            tell process "Alacritty"
                set windowNames to {}
                repeat with i from 1 to (count of windows)
                    set end of windowNames to name of window i
                end repeat
                return windowNames
            end tell
        end tell
        "#;

/// Start of the script that finds a window, up to the title.
pub const FIND_0: &'static str = r#"
        tell application "System Events"
            tell process "Alacritty"
                set windowIndex to 0
                repeat with i from 1 to (count of windows)
                    set w to window i
                    if name of w contains ""#;

/// End of the script that finds a window.
pub const FIND_1: &'static str = r#"" then
                        return i
                    end if
                end repeat
                return 0
            end tell
        end tell
        "#;

/// The script that answers the index of the first window of Alacritty whose title holds `title`, counted from 1, or 0 where there is none.
pub open spec fn find_window_script_text(title: Seq<char>) -> Seq<char> {
    FIND_0@
        + title
        + FIND_1@
}

/// Builds the script: the script that answers the index of the first window of Alacritty whose title holds `title`, counted from 1, or 0 where there is none.
pub fn find_window_script(title: &str) -> (script: String)
    ensures
        script@ == find_window_script_text(title@),
{
    let mut script = String::from_str(FIND_0);
    script.append(title);
    script.append(FIND_1);
    assert(script@ =~= find_window_script_text(title@));
    script
}

/// Start of the script that places a window, up to the name of the application.
pub const PLACE_0: &'static str = r#"
        tell application "System Events"
            tell process ""#;

/// The script that places a window, between the application and the count of windows.
pub const PLACE_1: &'static str = r#""
                if (count of windows) >= "#;

/// The text between the count of windows and the index of the window.
pub const PLACE_2: &'static str = r#" then
                    set w to window "#;

/// The text between the index and the position.
pub const PLACE_3: &'static str = r#"
                    set position of w to {"#;

/// The text between the two parts of the position.
pub const PLACE_4: &'static str = r#", "#;

/// The text between position and size.
pub const PLACE_5: &'static str = r#"}
                    set size of w to {"#;

/// The text between width and height.
pub const PLACE_6: &'static str = r#", "#;

/// End of the script that places a window.
pub const PLACE_7: &'static str = r#"}
                end if
            end tell
        end tell
        "#;

/// The script that gives the window of an application with a given index, counted from 1, a position and a size, if the application has that many windows.
pub open spec fn window_bounds_script_text(app_name: Seq<char>, index: usize, x: i32, y: i32, width: u32, height: u32) -> Seq<char> {
    PLACE_0@
        + app_name
        + PLACE_1@
        + decimal(index as nat)
        + PLACE_2@
        + decimal(index as nat)
        + PLACE_3@
        + signed_decimal(x as int)
        + PLACE_4@
        + signed_decimal(y as int)
        + PLACE_5@
        + decimal(width as nat)
        + PLACE_6@
        + decimal(height as nat)
        + PLACE_7@
}

/// Builds the script: the script that gives the window of an application with a given index, counted from 1, a position and a size, if the application has that many windows.
pub fn window_bounds_script(app_name: &str, index: usize, x: i32, y: i32, width: u32, height: u32) -> (script: String)
    ensures
        script@ == window_bounds_script_text(app_name@, index, x, y, width, height),
{
    let mut script = String::from_str(PLACE_0);
    script.append(app_name);
    script.append(PLACE_1);
    push_decimal(&mut script, index as u64);
    script.append(PLACE_2);
    push_decimal(&mut script, index as u64);
    script.append(PLACE_3);
    push_signed_decimal(&mut script, x as i64);
    script.append(PLACE_4);
    push_signed_decimal(&mut script, y as i64);
    script.append(PLACE_5);
    push_decimal(&mut script, width as u64);
    script.append(PLACE_6);
    push_decimal(&mut script, height as u64);
    script.append(PLACE_7);
    assert(script@ =~= window_bounds_script_text(app_name@, index, x, y, width, height));
    script
}

/// Start of the script that raises a window, up to the count of windows.
pub const RAISE_0: &'static str = r#"
        tell application "System Events"
            tell process "Alacritty"
                if (count of windows) >= "#;

/// The text between the count of windows and the index of the window.
pub const RAISE_1: &'static str = r#" then
                    set w to window "#;

/// End of the script that raises a window.
pub const RAISE_2: &'static str = r#"
                    -- Raise just this window to the front
                    perform action "AXRaise" of w
                    -- Return the window position for clicking
                    set winPos to position of w
                    return (item 1 of winPos) & "," & (item 2 of winPos)
                end if
            end tell
        end tell
        "#;

/// The script that raises the window of Alacritty with a given index, counted from 1, and answers its position as two numbers separated by a comma.
pub open spec fn focus_window_script_text(index: usize) -> Seq<char> {
    RAISE_0@
        + decimal(index as nat)
        + RAISE_1@
        + decimal(index as nat)
        + RAISE_2@
}

/// Builds the script: the script that raises the window of Alacritty with a given index, counted from 1, and answers its position as two numbers separated by a comma.
pub fn focus_window_script(index: usize) -> (script: String)
    ensures
        script@ == focus_window_script_text(index),
{
    let mut script = String::from_str(RAISE_0);
    push_decimal(&mut script, index as u64);
    script.append(RAISE_1);
    push_decimal(&mut script, index as u64);
    script.append(RAISE_2);
    assert(script@ =~= focus_window_script_text(index));
    script
}

/// The index of a window that a script answered: a whole number above 0,
/// surrounded by whitespace at most. An answer of 0 and any other text mean
/// that no window was found.
pub open spec fn index_of(answer: Seq<char>) -> Option<nat> {
    match unsigned_of(trimmed(answer), usize::MAX as nat) {
        Some(index) => if index > 0 {
            Some(index)
        } else {
            None
        },
        None => None,
    }
}

/// The position that a script answered: two whole numbers within the range
/// of `i32`, separated by the first comma of the answer, each surrounded by
/// whitespace at most.
pub open spec fn position_of(answer: Seq<char>) -> Option<(int, int)> {
    let text = trimmed(answer);
    let comma = first_of_two(text, ',', ',', 0);
    if comma >= text.len() {
        None
    } else {
        match (
            signed_of(trimmed(text.take(comma)), i32::MIN as int, i32::MAX as int),
            signed_of(trimmed(text.skip(comma + 1)), i32::MIN as int, i32::MAX as int),
        ) {
            (Some(x), Some(y)) => Some((x, y)),
            _ => None,
        }
    }
}

/// Reads the index of a window from a script's answer.
pub fn window_index(answer: &str) -> (index: Option<usize>)
    ensures
        match index {
            Some(i) => index_of(answer@) == Some(i as nat),
            None => index_of(answer@) is None,
        },
{
    let text = trim(answer);
    let chars = to_chars(text.as_str());
    match parse_unsigned(&chars, usize::MAX as u64) {
        Some(index) => if index > 0 {
            Some(index as usize)
        } else {
            None
        },
        None => None,
    }
}

/// Reads a whole number within the range of `i32`, surrounded by whitespace
/// at most.
fn trimmed_i32(text: &str) -> (value: Option<i32>)
    ensures
        match value {
            Some(v) => signed_of(trimmed(text@), i32::MIN as int, i32::MAX as int) == Some(
                v as int,
            ),
            None => signed_of(trimmed(text@), i32::MIN as int, i32::MAX as int) is None,
        },
{
    let inner = trim(text);
    let chars = to_chars(inner.as_str());
    match parse_signed(&chars, i32::MIN as i64, i32::MAX as i64) {
        Some(value) => Some(value as i32),
        None => None,
    }
}

/// Reads the position of a window from a script's answer.
pub fn window_position(answer: &str) -> (position: Option<(i32, i32)>)
    ensures
        match position {
            Some(p) => position_of(answer@) == Some((p.0 as int, p.1 as int)),
            None => position_of(answer@) is None,
        },
{
    let text = trim(answer);
    let chars = to_chars(text.as_str());
    let comma = find_either(&chars, ',', ',', 0);
    if comma >= chars.len() {
        return None;
    }
    let left = to_string(&chars, 0, comma);
    let right = to_string(&chars, comma + 1, chars.len());
    assert(chars@.subrange(0, comma as int) =~= chars@.take(comma as int));
    assert(chars@.subrange(comma + 1, chars@.len() as int) =~= chars@.skip(comma + 1));
    match (trimmed_i32(left.as_str()), trimmed_i32(right.as_str())) {
        (Some(x), Some(y)) => Some((x, y)),
        _ => None,
    }
}

/// Where to click to give a window the focus: 50 pixels right of and below
/// its position.
pub fn click_point(position: (i32, i32)) -> (point: (i64, i64))
    ensures
        point.0 == position.0 + 50,
        point.1 == position.1 + 50,
{
    (position.0 as i64 + 50, position.1 as i64 + 50)
}

} // verus!

