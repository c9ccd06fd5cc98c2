//! Terminal emulators for the editor popup: which one a name stands for,
//! where its executable is looked for, and the size of its window in cells.

use vstd::prelude::*;
use vstd::string::{StrSliceExecFns, StringExecFns};

use crate::text::{lowercase, lowercased, str_eq};

verus! {

/// Position and size of the popup window, in pixels.
#[derive(Debug, Clone, Copy, PartialEq, Eq, Structural)]
pub struct WindowGeometry {
    pub x: i32,
    pub y: i32,
    pub width: u32,
    pub height: u32,
}

impl Default for WindowGeometry {
    fn default() -> (geometry: Self)
        ensures
            geometry == (WindowGeometry { x: 0, y: 0, width: 0, height: 0 }),
    {
        WindowGeometry { x: 0, y: 0, width: 0, height: 0 }
    }
}

/// The terminal emulators that can host the editor.
#[derive(Debug, Clone, Copy, PartialEq, Eq, Structural)]
pub enum TerminalType {
    Alacritty,
    Ghostty,
    Kitty,
    WezTerm,
    ITerm,
    /// The terminal that comes with the system.
    Default,
}

impl TerminalType {
    /// The terminal that a lowercase name stands for; any unknown name
    /// stands for the system's terminal.
    pub open spec fn of_name(name: Seq<char>) -> TerminalType {
        if name == "alacritty"@ {
            TerminalType::Alacritty
        } else if name == "ghostty"@ {
            TerminalType::Ghostty
        } else if name == "kitty"@ {
            TerminalType::Kitty
        } else if name == "wezterm"@ {
            TerminalType::WezTerm
        } else if name == "iterm"@ || name == "iterm2"@ {
            TerminalType::ITerm
        } else {
            TerminalType::Default
        }
    }

    /// The terminal that the lowercase name `name` stands for.
    pub fn from_lowercase(name: &str) -> (terminal: Self)
        ensures
            terminal == TerminalType::of_name(name@),
    {
        if str_eq(name, "alacritty") {
            TerminalType::Alacritty
        } else if str_eq(name, "ghostty") {
            TerminalType::Ghostty
        } else if str_eq(name, "kitty") {
            TerminalType::Kitty
        } else if str_eq(name, "wezterm") {
            TerminalType::WezTerm
        } else if str_eq(name, "iterm") || str_eq(name, "iterm2") {
            TerminalType::ITerm
        } else {
            TerminalType::Default
        }
    }

    /// The terminal that `s` stands for, letter case ignored.
    pub fn from_string(s: &str) -> (terminal: Self)
        ensures
            terminal == TerminalType::of_name(lowercased(s@)),
    {
        let lowered = lowercase(s);
        TerminalType::from_lowercase(lowered.as_str())
    }
}

/// The size of a window in character cells of 8 by 16 pixels: at least 10
/// columns and 4 rows.
pub fn pixels_to_cells(geometry: &WindowGeometry) -> (cells: (u32, u32))
    ensures
        cells.0 == (if geometry.width / 8 >= 10 {
            geometry.width / 8
        } else {
            10
        }),
        cells.1 == (if geometry.height / 16 >= 4 {
            geometry.height / 16
        } else {
            4
        }),
{
    let cols = geometry.width / 8;
    let rows = geometry.height / 16;
    (
        if cols >= 10 {
            cols
        } else {
            10
        },
        if rows >= 4 {
            rows
        } else {
            4
        },
    )
}

/// Where the application bundle of a terminal keeps its executable, by the
/// terminal's lowercase name.
pub open spec fn bundle_executable(name: Seq<char>) -> Option<Seq<char>> {
    if name == "alacritty"@ {
        Some("/Applications/Alacritty.app/Contents/MacOS/alacritty"@)
    } else if name == "kitty"@ {
        Some("/Applications/kitty.app/Contents/MacOS/kitty"@)
    } else if name == "wezterm"@ {
        Some("/Applications/WezTerm.app/Contents/MacOS/wezterm"@)
    } else if name == "ghostty"@ {
        Some("/Applications/Ghostty.app/Contents/MacOS/ghostty"@)
    } else {
        None
    }
}

/// Where the application bundle of the terminal with the lowercase name
/// `name` keeps its executable, if the terminal is a known one.
pub fn bundle_path_of_lowercase(name: &str) -> (path: Option<&'static str>)
    ensures
        match path {
            Some(p) => bundle_executable(name@) == Some(p@),
            None => bundle_executable(name@) is None,
        },
{
    if str_eq(name, "alacritty") {
        Some("/Applications/Alacritty.app/Contents/MacOS/alacritty")
    } else if str_eq(name, "kitty") {
        Some("/Applications/kitty.app/Contents/MacOS/kitty")
    } else if str_eq(name, "wezterm") {
        Some("/Applications/WezTerm.app/Contents/MacOS/wezterm")
    } else if str_eq(name, "ghostty") {
        Some("/Applications/Ghostty.app/Contents/MacOS/ghostty")
    } else {
        None
    }
}

/// Where the application bundle of the terminal named `terminal_name`,
/// letter case ignored, keeps its executable. A terminal is first looked for
/// there, then as any other command.
pub fn terminal_bundle_path(terminal_name: &str) -> (path: Option<&'static str>)
    ensures
        match path {
            Some(p) => bundle_executable(lowercased(terminal_name@)) == Some(p@),
            None => bundle_executable(lowercased(terminal_name@)) is None,
        },
{
    let lowered = lowercase(terminal_name);
    bundle_path_of_lowercase(lowered.as_str())
}

/// Whether a command is given by an absolute path.
pub fn is_absolute(cmd: &str) -> (absolute: bool)
    ensures
        absolute == (cmd@.len() > 0 && cmd@[0] == '/'),
{
    cmd.unicode_len() > 0 && cmd.get_char(0) == '/'
}

/// The directories in which a command is looked for, in order, when the
/// search path of the environment cannot be relied on.
pub open spec fn bin_directories() -> Seq<Seq<char>> {
    seq!["/opt/homebrew/bin"@, "/usr/local/bin"@, "/usr/bin"@, "/bin"@]
}

/// The paths under which the command `cmd` is looked for, in order: the
/// command in each of the usual directories.
pub fn command_candidates(cmd: &str) -> (paths: Vec<String>)
    ensures
        paths@.len() == bin_directories().len(),
        forall|i: int|
            0 <= i < paths@.len() ==> (#[trigger] paths@[i])@ == bin_directories()[i] + "/"@
                + cmd@,
{
    let mut paths: Vec<String> = Vec::new();
    paths.push(String::from_str("/opt/homebrew/bin").concat("/").concat(cmd));
    paths.push(String::from_str("/usr/local/bin").concat("/").concat(cmd));
    paths.push(String::from_str("/usr/bin").concat("/").concat(cmd));
    paths.push(String::from_str("/bin").concat("/").concat(cmd));
    paths
}

} // verus!
