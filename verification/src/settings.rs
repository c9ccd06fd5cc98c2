//! The settings of the editor popup and of the indicator, as plain data, and
//! what follows from them.

use vstd::prelude::*;
use vstd::string::StringExecFns;

use crate::text::{lowercase, lowercased, occurs_in, path_file_name, str_contains, str_eq};

verus! {

/// The modifier keys that have to be held with a shortcut key.
#[derive(Debug, Clone, Copy, PartialEq, Eq, Structural)]
pub struct VimKeyModifiers {
    pub shift: bool,
    pub control: bool,
    pub option: bool,
    pub command: bool,
}

impl Default for VimKeyModifiers {
    fn default() -> (modifiers: Self)
        ensures
            modifiers == (VimKeyModifiers {
                shift: false,
                control: false,
                option: false,
                command: false,
            }),
    {
        VimKeyModifiers { shift: false, control: false, option: false, command: false }
    }
}

/// The editors that the popup can run.
#[derive(Debug, Clone, Copy, PartialEq, Eq, Structural)]
pub enum EditorType {
    Neovim,
    Vim,
    Helix,
    Custom,
}

impl Default for EditorType {
    fn default() -> (editor: Self)
        ensures
            editor == EditorType::Neovim,
    {
        EditorType::Neovim
    }
}

impl EditorType {
    /// The editor that a lowercase name stands for; any unknown name stands
    /// for a custom editor.
    pub open spec fn of_name(name: Seq<char>) -> EditorType {
        if name == "neovim"@ || name == "nvim"@ {
            EditorType::Neovim
        } else if name == "vim"@ {
            EditorType::Vim
        } else if name == "helix"@ || name == "hx"@ {
            EditorType::Helix
        } else {
            EditorType::Custom
        }
    }

    /// The name of the editor's executable; empty for a custom editor.
    pub open spec fn executable(self) -> Seq<char> {
        match self {
            EditorType::Neovim => "nvim"@,
            EditorType::Vim => "vim"@,
            EditorType::Helix => "hx"@,
            EditorType::Custom => ""@,
        }
    }

    /// The arguments that put the cursor at the end of the file: one for
    /// Neovim and Vim, none for the others.
    pub open spec fn end_args(self) -> Seq<Seq<char>> {
        match self {
            EditorType::Neovim | EditorType::Vim => seq!["+normal G$"@],
            EditorType::Helix | EditorType::Custom => Seq::empty(),
        }
    }

    /// The editor that the lowercase name `name` stands for.
    pub fn from_lowercase(name: &str) -> (editor: Self)
        ensures
            editor == EditorType::of_name(name@),
    {
        if str_eq(name, "neovim") || str_eq(name, "nvim") {
            EditorType::Neovim
        } else if str_eq(name, "vim") {
            EditorType::Vim
        } else if str_eq(name, "helix") || str_eq(name, "hx") {
            EditorType::Helix
        } else {
            EditorType::Custom
        }
    }

    /// The editor that `s` stands for, letter case ignored.
    pub fn from_string(s: &str) -> (editor: Self)
        ensures
            editor == EditorType::of_name(lowercased(s@)),
    {
        let lowered = lowercase(s);
        EditorType::from_lowercase(lowered.as_str())
    }

    /// The name of the editor's executable.
    pub fn default_executable(&self) -> (name: &'static str)
        ensures
            name@ == self.executable(),
    {
        match self {
            EditorType::Neovim => "nvim",
            EditorType::Vim => "vim",
            EditorType::Helix => "hx",
            EditorType::Custom => "",
        }
    }

    /// The name under which the editor's process runs.
    pub fn process_name(&self) -> (name: &'static str)
        ensures
            name@ == self.executable(),
    {
        match self {
            EditorType::Neovim => "nvim",
            EditorType::Vim => "vim",
            EditorType::Helix => "hx",
            EditorType::Custom => "",
        }
    }

    /// The arguments that put the cursor at the end of the file.
    pub fn cursor_end_args(&self) -> (args: Vec<&'static str>)
        ensures
            args@.len() == self.end_args().len(),
            forall|i: int| 0 <= i < args@.len() ==> (#[trigger] args@[i])@ == self.end_args()[i],
    {
        match self {
            EditorType::Neovim | EditorType::Vim => {
                let mut args = Vec::new();
                args.push("+normal G$");
                args
            },
            EditorType::Helix => Vec::new(),
            EditorType::Custom => Vec::new(),
        }
    }
}

/// Settings of the editor popup.
#[derive(Debug, Clone)]
pub struct NvimEditSettings {
    /// Whether the popup is enabled.
    pub enabled: bool,
    /// The shortcut key, by its settings name.
    pub shortcut_key: String,
    /// The modifiers of the shortcut.
    pub shortcut_modifiers: VimKeyModifiers,
    /// The terminal to use: "alacritty", "iterm", "kitty", "wezterm",
    /// "ghostty" or "default".
    pub terminal: String,
    /// Path of the terminal's executable; empty to look it up.
    pub terminal_path: String,
    /// The editor to run.
    pub editor: EditorType,
    /// Path of the editor's executable; empty for the editor's own.
    pub nvim_path: String,
    /// Whether the window is placed below the text field.
    pub popup_mode: bool,
    /// Width of the window in pixels; 0 for the width of the text field.
    pub popup_width: u32,
    /// Height of the window in pixels.
    pub popup_height: u32,
    /// Whether the text field follows the editor while it is open.
    pub live_sync_enabled: bool,
}

/// Whether a lowercase path fits the terminal of the given name: the
/// path of a known terminal has to hold that terminal's name ("terminal" for
/// the default one); any path fits an unknown terminal.
pub open spec fn path_fits_terminal(terminal: Seq<char>, path_lower: Seq<char>) -> bool {
    if terminal == "alacritty"@ {
        occurs_in("alacritty"@, path_lower)
    } else if terminal == "kitty"@ {
        occurs_in("kitty"@, path_lower)
    } else if terminal == "wezterm"@ {
        occurs_in("wezterm"@, path_lower)
    } else if terminal == "ghostty"@ {
        occurs_in("ghostty"@, path_lower)
    } else if terminal == "iterm"@ {
        occurs_in("iterm"@, path_lower)
    } else if terminal == "default"@ {
        occurs_in("terminal"@, path_lower)
    } else {
        true
    }
}

/// Whether the lowercase path `path_lower` fits the terminal named
/// `terminal`.
pub fn lowercase_path_matches(terminal: &str, path_lower: &str) -> (fits: bool)
    ensures
        fits == path_fits_terminal(terminal@, path_lower@),
{
    if str_eq(terminal, "alacritty") {
        str_contains(path_lower, "alacritty")
    } else if str_eq(terminal, "kitty") {
        str_contains(path_lower, "kitty")
    } else if str_eq(terminal, "wezterm") {
        str_contains(path_lower, "wezterm")
    } else if str_eq(terminal, "ghostty") {
        str_contains(path_lower, "ghostty")
    } else if str_eq(terminal, "iterm") {
        str_contains(path_lower, "iterm")
    } else if str_eq(terminal, "default") {
        str_contains(path_lower, "terminal")
    } else {
        true
    }
}

/// The process name for the last component of an editor's path: the
/// component itself, or the empty name where the path has none.
pub fn name_or_empty(file_name: Option<String>) -> (name: String)
    ensures
        name@ == (match file_name {
            Some(component) => component@,
            None => Seq::empty(),
        }),
{
    match file_name {
        Some(component) => component,
        None => String::new(),
    }
}

impl NvimEditSettings {
    /// Whether these are the settings of a fresh installation.
    pub open spec fn is_initial(self) -> bool {
        &&& self.enabled
        &&& self.shortcut_key@ == "e"@
        &&& self.shortcut_modifiers == (VimKeyModifiers {
            shift: true,
            control: false,
            option: false,
            command: true,
        })
        &&& self.terminal@ == "alacritty"@
        &&& self.terminal_path@ == ""@
        &&& self.editor == EditorType::Neovim
        &&& self.nvim_path@ == ""@
        &&& self.popup_mode
        &&& self.popup_width == 0
        &&& self.popup_height == 300
        &&& self.live_sync_enabled
    }

    /// Whether the terminal path, letter case ignored, fits the terminal.
    pub open spec fn path_matches(self) -> bool {
        path_fits_terminal(self.terminal@, lowercased(self.terminal_path@))
    }

    /// Whether the terminal path is set and fits the terminal.
    pub open spec fn path_in_use(self) -> bool {
        self.terminal_path@.len() > 0 && self.path_matches()
    }

    /// The path of the editor to run: the configured one, or the
    /// executable of the editor type where none is configured.
    pub fn editor_path(&self) -> (path: String)
        ensures
            path@ == (if self.nvim_path@.len() == 0 {
                self.editor.executable()
            } else {
                self.nvim_path@
            }),
    {
        if self.nvim_path.as_str().is_empty() {
            String::from_str(self.editor.default_executable())
        } else {
            self.nvim_path.clone()
        }
    }

    /// The terminal to run: the configured path where it is set and fits
    /// the terminal, else the terminal's name, to be looked up.
    pub fn get_terminal_path(&self) -> (path: String)
        ensures
            path@ == (if self.path_in_use() {
                self.terminal_path@
            } else {
                self.terminal@
            }),
    {
        if self.terminal_path.as_str().is_empty() {
            return self.terminal.clone();
        }
        if self.terminal_path_matches_type() {
            self.terminal_path.clone()
        } else {
            self.terminal.clone()
        }
    }

    /// Whether the terminal path fits the terminal.
    pub fn terminal_path_matches_type(&self) -> (fits: bool)
        ensures
            fits == self.path_matches(),
    {
        let path_lower = lowercase(self.terminal_path.as_str());
        lowercase_path_matches(self.terminal.as_str(), path_lower.as_str())
    }

    /// Repairs settings that contradict each other: a terminal path that
    /// does not fit the terminal is cleared. Nothing else changes.
    pub fn sanitize(&mut self)
        ensures
            final(self).terminal_path@ == (if old(self).path_in_use() {
                old(self).terminal_path@
            } else {
                ""@
            }),
            *final(self) == (NvimEditSettings {
                terminal_path: final(self).terminal_path,
                ..*old(self)
            }),
    {
        if !self.terminal_path.as_str().is_empty() && !self.terminal_path_matches_type() {
            self.terminal_path = String::new();
        }
        proof {
            reveal_strlit("");
            assert(self.terminal_path@.len() == 0 ==> self.terminal_path@ =~= ""@);
        }
    }

    /// The editor's arguments that put the cursor at the end of the file.
    pub fn editor_args(&self) -> (args: Vec<&'static str>)
        ensures
            args@.len() == self.editor.end_args().len(),
            forall|i: int|
                0 <= i < args@.len() ==> (#[trigger] args@[i])@ == self.editor.end_args()[i],
    {
        self.editor.cursor_end_args()
    }

    /// The name of the editor's process, by which its exit is awaited: the
    /// name of the editor type where no path is configured, else the last
    /// component of the configured path.
    pub fn editor_process_name(&self) -> (name: String)
        ensures
            self.nvim_path@.len() == 0 ==> name@ == self.editor.executable(),
    {
        if self.nvim_path.as_str().is_empty() {
            String::from_str(self.editor.process_name())
        } else {
            name_or_empty(path_file_name(self.nvim_path.as_str()))
        }
    }
}

impl Default for NvimEditSettings {
    fn default() -> (settings: Self)
        ensures
            settings.is_initial(),
    {
        NvimEditSettings {
            enabled: true,
            shortcut_key: String::from_str("e"),
            shortcut_modifiers: VimKeyModifiers {
                shift: true,
                control: false,
                option: false,
                command: true,
            },
            terminal: String::from_str("alacritty"),
            terminal_path: String::from_str(""),
            editor: EditorType::Neovim,
            nvim_path: String::from_str(""),
            popup_mode: true,
            popup_width: 0,
            popup_height: 300,
            live_sync_enabled: true,
        }
    }
}

/// A color by its red, green and blue parts.
#[derive(Debug, Clone, Copy, PartialEq, Eq, Structural)]
pub struct RgbColor {
    pub r: u8,
    pub g: u8,
    pub b: u8,
}

impl Default for RgbColor {
    /// Middle gray.
    fn default() -> (color: Self)
        ensures
            color == (RgbColor { r: 128, g: 128, b: 128 }),
    {
        RgbColor { r: 128, g: 128, b: 128 }
    }
}

/// The background colors of the indicator, one for each mode.
#[derive(Debug, Clone, Copy, PartialEq, Eq, Structural)]
pub struct ModeColors {
    pub insert: RgbColor,
    pub normal: RgbColor,
    pub visual: RgbColor,
}

impl Default for ModeColors {
    /// Blue for insert, orange for normal, purple for visual.
    fn default() -> (colors: Self)
        ensures
            colors == (ModeColors {
                insert: RgbColor { r: 74, g: 144, b: 217 },
                normal: RgbColor { r: 232, g: 148, b: 74 },
                visual: RgbColor { r: 155, g: 109, b: 215 },
            }),
    {
        ModeColors {
            insert: RgbColor { r: 74, g: 144, b: 217 },
            normal: RgbColor { r: 232, g: 148, b: 74 },
            visual: RgbColor { r: 155, g: 109, b: 215 },
        }
    }
}

/// The font family of the indicator unless another is configured.
pub fn default_font_family() -> (family: String)
    ensures
        family@ == "system-ui, -apple-system, sans-serif"@,
{
    String::from_str("system-ui, -apple-system, sans-serif")
}

/// Whether the engine is enabled unless the settings say otherwise.
pub fn default_enabled() -> (enabled: bool)
    ensures
        enabled,
{
    true
}

/// The value of a setting that is on unless the settings say otherwise.
pub fn default_true() -> (on: bool)
    ensures
        on,
{
    true
}

} // verus!
