//! Judging the configured terminal and editor: which command is to be
//! looked for, and what to report once the caller has looked for it.

use vstd::prelude::*;
use vstd::string::StringExecFns;

use crate::text::str_eq;

verus! {

/// The outcome of checking the configured terminal and editor.
#[derive(Debug, Clone, PartialEq, Eq)]
pub struct PathValidation {
    /// Whether the terminal can be run.
    pub terminal_valid: bool,
    /// Where the terminal was found; empty if it was not.
    pub terminal_resolved_path: String,
    /// Why the terminal cannot be run, if it cannot.
    pub terminal_error: Option<String>,
    /// Whether the editor can be run.
    pub editor_valid: bool,
    /// Where the editor was found; empty if it was not.
    pub editor_resolved_path: String,
    /// Why the editor cannot be run, if it cannot.
    pub editor_error: Option<String>,
}

/// The text of an optional string.
pub open spec fn text_of(s: Option<String>) -> Option<Seq<char>> {
    match s {
        Some(s) => Some(s@),
        None => None,
    }
}

/// Whether a terminal is driven by scripting its application rather than by
/// running an executable: iTerm and the system's terminal.
pub open spec fn is_scripted(terminal_type: Seq<char>) -> bool {
    terminal_type == "iterm"@ || terminal_type == "default"@
}

/// The application of a scripted terminal.
pub open spec fn scripted_app(terminal_type: Seq<char>) -> Seq<char> {
    if terminal_type == "iterm"@ {
        "/Applications/iTerm.app"@
    } else {
        "/Applications/Utilities/Terminal.app"@
    }
}

/// The name of a terminal as shown to a person; an unknown terminal is
/// shown by its type.
pub open spec fn terminal_label(terminal_type: Seq<char>) -> Seq<char> {
    if terminal_type == "alacritty"@ {
        "Alacritty"@
    } else if terminal_type == "kitty"@ {
        "Kitty"@
    } else if terminal_type == "wezterm"@ {
        "WezTerm"@
    } else if terminal_type == "ghostty"@ {
        "Ghostty"@
    } else {
        terminal_type
    }
}

/// The name of an editor as shown to a person; an unknown editor is shown by
/// its type.
pub open spec fn editor_label(editor_type: Seq<char>) -> Seq<char> {
    if editor_type == "neovim"@ {
        "Neovim (nvim)"@
    } else if editor_type == "vim"@ {
        "Vim"@
    } else if editor_type == "helix"@ {
        "Helix (hx)"@
    } else if editor_type == "custom"@ {
        "Editor"@
    } else {
        editor_type
    }
}

/// The report on something that was not found: by its label where no path
/// was configured, else by the configured path.
pub open spec fn not_found(label: Seq<char>, configured_path: Seq<char>) -> Seq<char> {
    if configured_path.len() == 0 {
        label + " not found. Install it or specify a custom path."@
    } else {
        "Path '"@ + configured_path + "' not found or not executable"@
    }
}

/// The command by which an executable terminal is looked for: the configured
/// path, or the terminal's type where none is configured.
pub open spec fn terminal_command_of(terminal_type: Seq<char>, terminal_path: Seq<char>) -> Seq<
    char,
> {
    if terminal_path.len() == 0 {
        terminal_type
    } else {
        terminal_path
    }
}

/// The command by which an editor is looked for: the configured path; where
/// none is configured, the executable of a known editor type or the type
/// itself for an unknown one. A custom editor without a path has none.
pub open spec fn editor_command_of(editor_type: Seq<char>, editor_path: Seq<char>) -> Option<
    Seq<char>,
> {
    if editor_path.len() > 0 {
        Some(editor_path)
    } else if editor_type == "neovim"@ {
        Some("nvim"@)
    } else if editor_type == "vim"@ {
        Some("vim"@)
    } else if editor_type == "helix"@ {
        Some("hx"@)
    } else if editor_type == "custom"@ {
        None
    } else {
        Some(editor_type)
    }
}

/// The judgement on a terminal: whether it can be run, where it was found,
/// and why not if it cannot. `app_exists` tells whether the application of a
/// scripted terminal is installed; `executable` is where the terminal's
/// command was found as an executable file, if it was. The system's terminal
/// counts as present even where its application was not found.
pub open spec fn terminal_judgement(
    terminal_type: Seq<char>,
    terminal_path: Seq<char>,
    app_exists: bool,
    executable: Option<Seq<char>>,
) -> (bool, Seq<char>, Option<Seq<char>>) {
    if is_scripted(terminal_type) {
        if app_exists {
            (true, scripted_app(terminal_type), None)
        } else if terminal_type == "default"@ {
            (true, "Terminal.app"@, None)
        } else {
            (false, Seq::empty(), Some("iTerm2 not found at /Applications/iTerm.app"@))
        }
    } else {
        match executable {
            Some(path) => (true, path, None),
            None => (
                false,
                Seq::empty(),
                Some(not_found(terminal_label(terminal_type), terminal_path)),
            ),
        }
    }
}

/// The judgement on an editor: whether it can be run, where it was found,
/// and why not if it cannot. `executable` is where the editor's command was
/// found as an executable file, if it was.
pub open spec fn editor_judgement(
    editor_type: Seq<char>,
    editor_path: Seq<char>,
    executable: Option<Seq<char>>,
) -> (bool, Seq<char>, Option<Seq<char>>) {
    if editor_command_of(editor_type, editor_path) is None {
        (false, Seq::empty(), Some("Custom editor requires a path"@))
    } else {
        match executable {
            Some(path) => (true, path, None),
            None => (false, Seq::empty(), Some(not_found(editor_label(editor_type), editor_path))),
        }
    }
}

/// The type name of a custom editor differs from those of the known ones.
proof fn lemma_custom_is_no_known_editor()
    ensures
        "custom"@ != "neovim"@,
        "custom"@ != "vim"@,
        "custom"@ != "helix"@,
{
    reveal_strlit("custom");
    reveal_strlit("neovim");
    reveal_strlit("vim");
    reveal_strlit("helix");
    assert("custom"@[0] != "neovim"@[0]);
    assert("custom"@.len() != "vim"@.len());
    assert("custom"@.len() != "helix"@.len());
}

/// Whether the terminal of this type is driven by scripting.
pub fn terminal_is_scripted(terminal_type: &str) -> (scripted: bool)
    ensures
        scripted == is_scripted(terminal_type@),
{
    str_eq(terminal_type, "iterm") || str_eq(terminal_type, "default")
}

/// The application of a scripted terminal, whose presence the caller checks.
pub fn scripted_terminal_app(terminal_type: &str) -> (app: &'static str)
    ensures
        app@ == scripted_app(terminal_type@),
{
    if str_eq(terminal_type, "iterm") {
        "/Applications/iTerm.app"
    } else {
        "/Applications/Utilities/Terminal.app"
    }
}

/// The command by which an executable terminal is looked for.
pub fn terminal_command(terminal_type: &str, terminal_path: &str) -> (command: String)
    ensures
        command@ == terminal_command_of(terminal_type@, terminal_path@),
{
    if terminal_path.is_empty() {
        String::from_str(terminal_type)
    } else {
        String::from_str(terminal_path)
    }
}

/// The command by which the editor is looked for, if there is one.
pub fn editor_command(editor_type: &str, editor_path: &str) -> (command: Option<String>)
    ensures
        text_of(command) == editor_command_of(editor_type@, editor_path@),
{
    if !editor_path.is_empty() {
        Some(String::from_str(editor_path))
    } else if str_eq(editor_type, "neovim") {
        Some(String::from_str("nvim"))
    } else if str_eq(editor_type, "vim") {
        Some(String::from_str("vim"))
    } else if str_eq(editor_type, "helix") {
        Some(String::from_str("hx"))
    } else if str_eq(editor_type, "custom") {
        None
    } else {
        Some(String::from_str(editor_type))
    }
}

/// The report on something that was not found.
fn not_found_message(label: &str, configured_path: &str) -> (message: String)
    ensures
        message@ == not_found(label@, configured_path@),
{
    if configured_path.is_empty() {
        String::from_str(label).concat(" not found. Install it or specify a custom path.")
    } else {
        String::from_str("Path '").concat(configured_path).concat(
            "' not found or not executable",
        )
    }
}

/// Judges the terminal from what the caller found: whether it can be run,
/// where it was found, and the reason if it cannot.
pub fn validate_terminal(
    terminal_type: &str,
    terminal_path: &str,
    app_exists: bool,
    executable: Option<String>,
) -> (judgement: (bool, String, Option<String>))
    ensures
        (judgement.0, judgement.1@, text_of(judgement.2)) == terminal_judgement(
            terminal_type@,
            terminal_path@,
            app_exists,
            text_of(executable),
        ),
{
    if terminal_is_scripted(terminal_type) {
        if app_exists {
            return (true, String::from_str(scripted_terminal_app(terminal_type)), None);
        } else if str_eq(terminal_type, "default") {
            return (true, String::from_str("Terminal.app"), None);
        }
        return (
            false,
            String::new(),
            Some(String::from_str("iTerm2 not found at /Applications/iTerm.app")),
        );
    }
    if let Some(path) = executable {
        return (true, path, None);
    }
    let terminal_name = if str_eq(terminal_type, "alacritty") {
        "Alacritty"
    } else if str_eq(terminal_type, "kitty") {
        "Kitty"
    } else if str_eq(terminal_type, "wezterm") {
        "WezTerm"
    } else if str_eq(terminal_type, "ghostty") {
        "Ghostty"
    } else {
        terminal_type
    };
    (false, String::new(), Some(not_found_message(terminal_name, terminal_path)))
}

/// Judges the editor from what the caller found: whether it can be run,
/// where it was found, and the reason if it cannot.
pub fn validate_editor(editor_type: &str, editor_path: &str, executable: Option<String>) -> (judgement:
    (bool, String, Option<String>))
    ensures
        (judgement.0, judgement.1@, text_of(judgement.2)) == editor_judgement(
            editor_type@,
            editor_path@,
            text_of(executable),
        ),
{
    if editor_path.is_empty() && str_eq(editor_type, "custom") {
        proof {
            lemma_custom_is_no_known_editor();
        }
        return (false, String::new(), Some(String::from_str("Custom editor requires a path")));
    }
    if let Some(path) = executable {
        return (true, path, None);
    }
    let editor_name = if str_eq(editor_type, "neovim") {
        "Neovim (nvim)"
    } else if str_eq(editor_type, "vim") {
        "Vim"
    } else if str_eq(editor_type, "helix") {
        "Helix (hx)"
    } else if str_eq(editor_type, "custom") {
        "Editor"
    } else {
        editor_type
    };
    (false, String::new(), Some(not_found_message(editor_name, editor_path)))
}

/// Judges terminal and editor together.
pub fn validate_nvim_edit_paths(
    terminal_type: &str,
    terminal_path: &str,
    editor_type: &str,
    editor_path: &str,
    terminal_app_exists: bool,
    terminal_executable: Option<String>,
    editor_executable: Option<String>,
) -> (validation: PathValidation)
    ensures
        (
            validation.terminal_valid,
            validation.terminal_resolved_path@,
            text_of(validation.terminal_error),
        ) == terminal_judgement(
            terminal_type@,
            terminal_path@,
            terminal_app_exists,
            text_of(terminal_executable),
        ),
        (validation.editor_valid, validation.editor_resolved_path@, text_of(validation.editor_error))
            == editor_judgement(editor_type@, editor_path@, text_of(editor_executable)),
{
    let (terminal_valid, terminal_resolved_path, terminal_error) = validate_terminal(
        terminal_type,
        terminal_path,
        terminal_app_exists,
        terminal_executable,
    );
    let (editor_valid, editor_resolved_path, editor_error) = validate_editor(
        editor_type,
        editor_path,
        editor_executable,
    );
    PathValidation {
        terminal_valid,
        terminal_resolved_path,
        terminal_error,
        editor_valid,
        editor_resolved_path,
        editor_error,
    }
}

} // verus!
