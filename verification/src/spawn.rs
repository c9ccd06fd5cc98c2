//! Command lines for the terminals that host the editor of the popup. The
//! functions here compute what is to be run; running it is the caller's
//! part.

use vstd::prelude::*;
use vstd::string::StringExecFns;

use crate::terminal::{is_absolute, TerminalType, WindowGeometry};
use crate::text::{decimal, push_decimal, push_signed_decimal, signed_decimal};

verus! {

/// The texts of a list of strings.
pub open spec fn texts(strings: Seq<String>) -> Seq<Seq<char>> {
    strings.map_values(|s: String| s@)
}

/// The texts of a list of string slices.
pub open spec fn slices(strings: Seq<&'static str>) -> Seq<Seq<char>> {
    strings.map_values(|s: &'static str| s@)
}

/// The title by which the window of the editor is found again: it ends in
/// the identifier of the process that opens it.
pub open spec fn title_of(pid: u32) -> Seq<char> {
    "ovim-edit-"@ + decimal(pid as nat)
}

/// The title of the window that the process `pid` opens for the editor.
pub fn window_title(pid: u32) -> (title: String)
    ensures
        title@ == title_of(pid),
{
    let mut title = String::from_str("ovim-edit-");
    push_decimal(&mut title, pid as u64);
    title
}

/// Appends `text` to `args`.
fn push_text(args: &mut Vec<String>, text: &str)
    ensures
        texts(final(args)@) == texts(old(args)@).push(text@),
{
    args.push(String::from_str(text));
    assert(texts(args@) =~= texts(old(args)@).push(text@));
}

/// Appends `text` to `args`.
fn push_string(args: &mut Vec<String>, text: String)
    ensures
        texts(final(args)@) == texts(old(args)@).push(text@),
{
    args.push(text);
    assert(texts(args@) =~= texts(old(args)@).push(text@));
}

/// Appends `label` followed by `n` in decimal notation to `args`.
fn push_number(args: &mut Vec<String>, label: &str, n: u64)
    ensures
        texts(final(args)@) == texts(old(args)@).push(label@ + decimal(n as nat)),
{
    let mut text = String::from_str(label);
    push_decimal(&mut text, n);
    push_string(args, text);
}

/// Appends `label` followed by `n` in decimal notation and `unit` to `args`.
fn push_measure(args: &mut Vec<String>, label: &str, n: u64, unit: &str)
    ensures
        texts(final(args)@) == texts(old(args)@).push(label@ + decimal(n as nat) + unit@),
{
    let mut text = String::from_str(label);
    push_decimal(&mut text, n);
    text.append(unit);
    push_string(args, text);
}

/// Appends `label` followed by `i` in decimal notation to `args`.
fn push_signed_number(args: &mut Vec<String>, label: &str, i: i64)
    ensures
        texts(final(args)@) == texts(old(args)@).push(label@ + signed_decimal(i as int)),
{
    let mut text = String::from_str(label);
    push_signed_decimal(&mut text, i);
    push_string(args, text);
}

/// Appends the editor, its arguments and the file to `args`: the tail of
/// every terminal's command line.
fn push_editor(
    args: &mut Vec<String>,
    editor: &str,
    editor_args: &Vec<&'static str>,
    file_path: &str,
)
    ensures
        texts(final(args)@) == texts(old(args)@) + editor_call(
            editor@,
            slices(editor_args@),
            file_path@,
        ),
{
    push_text(args, editor);
    let mut at: usize = 0;
    while at < editor_args.len()
        invariant
            at <= editor_args@.len(),
            texts(args@) == texts(old(args)@).push(editor@) + slices(editor_args@).take(at as int),
        decreases editor_args@.len() - at,
    {
        push_text(args, editor_args[at]);
        assert(slices(editor_args@).take(at as int).push(editor_args@[at as int]@) =~= slices(
            editor_args@,
        ).take(at + 1));
        at += 1;
    }
    assert(slices(editor_args@).take(at as int) =~= slices(editor_args@));
    push_text(args, file_path);
    assert(texts(args@) =~= texts(old(args)@) + editor_call(
        editor@,
        slices(editor_args@),
        file_path@,
    ));
}

/// The editor's part of a command line: the editor, its arguments, the file.
pub open spec fn editor_call(editor: Seq<char>, editor_args: Seq<Seq<char>>, file: Seq<char>) -> Seq<
    Seq<char>,
> {
    seq![editor] + editor_args + seq![file]
}

/// The window's size in character cells of 8 by 16 pixels, at least
/// `min_columns` by `min_lines`.
pub open spec fn cells_of(geometry: WindowGeometry, min_columns: u32, min_lines: u32) -> (u32, u32) {
    (
        if geometry.width / 8 >= min_columns {
            (geometry.width / 8) as u32
        } else {
            min_columns
        },
        if geometry.height / 16 >= min_lines {
            (geometry.height / 16) as u32
        } else {
            min_lines
        },
    )
}

/// The window's size in cells, at least `min_columns` by `min_lines`.
fn cells(geometry: &WindowGeometry, min_columns: u32, min_lines: u32) -> (size: (u32, u32))
    ensures
        size == cells_of(*geometry, min_columns, min_lines),
{
    let columns = geometry.width / 8;
    let lines = geometry.height / 16;
    (
        if columns >= min_columns {
            columns
        } else {
            min_columns
        },
        if lines >= min_lines {
            lines
        } else {
            min_lines
        },
    )
}

/// Opens the editor in a window of Alacritty.
#[derive(Debug, Clone, Copy, PartialEq, Eq, Structural)]
pub struct AlacrittySpawner;

impl AlacrittySpawner {
    /// The size at which the window opens, in cells: that of the geometry,
    /// at least 40 by 10; 80 by 24 without a geometry.
    pub open spec fn initial_cells(geometry: Option<WindowGeometry>) -> (u32, u32) {
        match geometry {
            Some(geometry) => cells_of(geometry, 40, 10),
            None => (80, 24),
        }
    }

    /// The arguments for Alacritty. `in_running_instance` asks a running
    /// Alacritty for a new window (`msg create-window`); without it a new
    /// instance starts.
    pub open spec fn arguments_of(
        title: Seq<char>,
        editor: Seq<char>,
        editor_args: Seq<Seq<char>>,
        file: Seq<char>,
        geometry: Option<WindowGeometry>,
        in_running_instance: bool,
    ) -> Seq<Seq<char>> {
        (if in_running_instance {
            seq!["msg"@, "create-window"@]
        } else {
            Seq::empty()
        }) + seq![
            "-o"@,
            "window.title=\""@ + title + "\""@,
            "-o"@,
            "window.dynamic_title=false"@,
            "-o"@,
            "window.startup_mode=\"Windowed\""@,
            "-o"@,
            "window.dimensions.columns="@ + decimal(Self::initial_cells(geometry).0 as nat),
            "-o"@,
            "window.dimensions.lines="@ + decimal(Self::initial_cells(geometry).1 as nat),
            "-e"@,
        ] + editor_call(editor, editor_args, file)
    }

    /// The terminal that this spawner opens.
    pub fn terminal_type(&self) -> (terminal: TerminalType)
        ensures
            terminal == TerminalType::Alacritty,
    {
        TerminalType::Alacritty
    }

    /// Computes the arguments for Alacritty.
    pub fn arguments(
        &self,
        title: &str,
        editor: &str,
        editor_args: &Vec<&'static str>,
        file_path: &str,
        geometry: Option<WindowGeometry>,
        in_running_instance: bool,
    ) -> (args: Vec<String>)
        ensures
            texts(args@) == Self::arguments_of(
                title@,
                editor@,
                slices(editor_args@),
                file_path@,
                geometry,
                in_running_instance,
            ),
    {
        let (columns, lines) = match geometry {
            Some(geometry) => cells(&geometry, 40, 10),
            None => (80, 24),
        };
        let mut args: Vec<String> = Vec::new();
        assert(texts(args@) =~= Seq::empty());
        if in_running_instance {
            push_text(&mut args, "msg");
            push_text(&mut args, "create-window");
        }
        let ghost head = texts(args@);
        push_text(&mut args, "-o");
        push_string(&mut args, String::from_str("window.title=\"").concat(title).concat("\""));
        push_text(&mut args, "-o");
        push_text(&mut args, "window.dynamic_title=false");
        push_text(&mut args, "-o");
        push_text(&mut args, "window.startup_mode=\"Windowed\"");
        push_text(&mut args, "-o");
        push_number(&mut args, "window.dimensions.columns=", columns as u64);
        push_text(&mut args, "-o");
        push_number(&mut args, "window.dimensions.lines=", lines as u64);
        push_text(&mut args, "-e");
        assert(texts(args@) =~= head + seq![
            "-o"@,
            "window.title=\""@ + title@ + "\""@,
            "-o"@,
            "window.dynamic_title=false"@,
            "-o"@,
            "window.startup_mode=\"Windowed\""@,
            "-o"@,
            "window.dimensions.columns="@ + decimal(columns as nat),
            "-o"@,
            "window.dimensions.lines="@ + decimal(lines as nat),
            "-e"@,
        ]);
        push_editor(&mut args, editor, editor_args, file_path);
        args
    }
}

/// Opens the editor in a window of kitty.
#[derive(Debug, Clone, Copy, PartialEq, Eq, Structural)]
pub struct KittySpawner;

impl KittySpawner {
    /// The program to run: kitty's executable in its application bundle
    /// where the bundle is installed, else `kitty` on the search path.
    pub open spec fn program_of(bundle_installed: bool) -> Seq<char> {
        if bundle_installed {
            "/Applications/kitty.app/Contents/MacOS/kitty"@
        } else {
            "kitty"@
        }
    }

    /// What places and sizes the window: its position in pixels, its size
    /// in cells of 8 by 16 pixels.
    pub open spec fn placement_of(geometry: Option<WindowGeometry>) -> Seq<Seq<char>> {
        match geometry {
            Some(geometry) => seq![
                "--position"@,
                signed_decimal(geometry.x as int) + "x"@ + signed_decimal(geometry.y as int),
                "-o"@,
                "initial_window_width="@ + decimal((geometry.width / 8) as nat) + "c"@,
                "-o"@,
                "initial_window_height="@ + decimal((geometry.height / 16) as nat) + "c"@,
                "-o"@,
                "remember_window_size=no"@,
            ],
            None => Seq::empty(),
        }
    }

    /// The arguments for kitty.
    pub open spec fn arguments_of(
        title: Seq<char>,
        editor: Seq<char>,
        editor_args: Seq<Seq<char>>,
        file: Seq<char>,
        geometry: Option<WindowGeometry>,
    ) -> Seq<Seq<char>> {
        seq![
            "--single-instance"@,
            "--wait-for-single-instance-window-close"@,
            "--title"@,
            title,
            "-o"@,
            "close_on_child_death=yes"@,
        ] + Self::placement_of(geometry) + editor_call(editor, editor_args, file)
    }

    /// The terminal that this spawner opens.
    pub fn terminal_type(&self) -> (terminal: TerminalType)
        ensures
            terminal == TerminalType::Kitty,
    {
        TerminalType::Kitty
    }

    /// The program to run, given whether kitty's application bundle is
    /// installed.
    pub fn program(&self, bundle_installed: bool) -> (program: &'static str)
        ensures
            program@ == Self::program_of(bundle_installed),
    {
        if bundle_installed {
            "/Applications/kitty.app/Contents/MacOS/kitty"
        } else {
            "kitty"
        }
    }

    /// Computes the arguments for kitty.
    pub fn arguments(
        &self,
        title: &str,
        editor: &str,
        editor_args: &Vec<&'static str>,
        file_path: &str,
        geometry: Option<WindowGeometry>,
    ) -> (args: Vec<String>)
        ensures
            texts(args@) == Self::arguments_of(
                title@,
                editor@,
                slices(editor_args@),
                file_path@,
                geometry,
            ),
    {
        let mut args: Vec<String> = Vec::new();
        assert(texts(args@) =~= Seq::empty());
        push_text(&mut args, "--single-instance");
        push_text(&mut args, "--wait-for-single-instance-window-close");
        push_text(&mut args, "--title");
        push_text(&mut args, title);
        push_text(&mut args, "-o");
        push_text(&mut args, "close_on_child_death=yes");
        let ghost head = texts(args@);
        if let Some(geometry) = geometry {
            push_text(&mut args, "--position");
            let mut position = String::new();
            push_signed_decimal(&mut position, geometry.x as i64);
            position.append("x");
            push_signed_decimal(&mut position, geometry.y as i64);
            assert(position@ =~= signed_decimal(geometry.x as int) + "x"@ + signed_decimal(
                geometry.y as int,
            ));
            push_string(&mut args, position);
            push_text(&mut args, "-o");
            push_measure(&mut args, "initial_window_width=", (geometry.width / 8) as u64, "c");
            push_text(&mut args, "-o");
            push_measure(&mut args, "initial_window_height=", (geometry.height / 16) as u64, "c");
            push_text(&mut args, "-o");
            push_text(&mut args, "remember_window_size=no");
        }
        assert(texts(args@) =~= head + Self::placement_of(geometry));
        push_editor(&mut args, editor, editor_args, file_path);
        args
    }
}

/// Opens the editor in a window of Ghostty.
#[derive(Debug, Clone, Copy, PartialEq, Eq, Structural)]
pub struct GhosttySpawner;

impl GhosttySpawner {
    /// Whether Ghostty's executable is run directly: so where the
    /// configured terminal is an absolute path. Else the application is
    /// opened by the system's `open`.
    pub open spec fn runs_binary(terminal_path: Seq<char>) -> bool {
        terminal_path.len() > 0 && terminal_path[0] == '/'
    }

    /// The program to run.
    pub open spec fn program_of(terminal_path: Seq<char>) -> Seq<char> {
        if Self::runs_binary(terminal_path) {
            terminal_path
        } else {
            "open"@
        }
    }

    /// What places and sizes the window: its size in cells, at least 10 by
    /// 4, and its position in pixels.
    pub open spec fn placement_of(geometry: Option<WindowGeometry>) -> Seq<Seq<char>> {
        match geometry {
            Some(geometry) => seq![
                "--window-width="@ + decimal(cells_of(geometry, 10, 4).0 as nat),
                "--window-height="@ + decimal(cells_of(geometry, 10, 4).1 as nat),
                "--window-position-x="@ + signed_decimal(geometry.x as int),
                "--window-position-y="@ + signed_decimal(geometry.y as int),
            ],
            None => Seq::empty(),
        }
    }

    /// The arguments for Ghostty, after those for `open` where the
    /// application is opened by it.
    pub open spec fn arguments_of(
        terminal_path: Seq<char>,
        title: Seq<char>,
        editor: Seq<char>,
        editor_args: Seq<Seq<char>>,
        file: Seq<char>,
        geometry: Option<WindowGeometry>,
    ) -> Seq<Seq<char>> {
        (if Self::runs_binary(terminal_path) {
            Seq::empty()
        } else {
            seq!["-na"@, "Ghostty.app"@, "--args"@]
        }) + seq!["--title="@ + title] + Self::placement_of(geometry) + seq!["-e"@] + editor_call(
            editor,
            editor_args,
            file,
        )
    }

    /// The terminal that this spawner opens.
    pub fn terminal_type(&self) -> (terminal: TerminalType)
        ensures
            terminal == TerminalType::Ghostty,
    {
        TerminalType::Ghostty
    }

    /// The program to run for the configured terminal.
    pub fn program(&self, terminal_path: &str) -> (program: String)
        ensures
            program@ == Self::program_of(terminal_path@),
    {
        if is_absolute(terminal_path) {
            String::from_str(terminal_path)
        } else {
            String::from_str("open")
        }
    }

    /// Computes the arguments for Ghostty.
    pub fn arguments(
        &self,
        terminal_path: &str,
        title: &str,
        editor: &str,
        editor_args: &Vec<&'static str>,
        file_path: &str,
        geometry: Option<WindowGeometry>,
    ) -> (args: Vec<String>)
        ensures
            texts(args@) == Self::arguments_of(
                terminal_path@,
                title@,
                editor@,
                slices(editor_args@),
                file_path@,
                geometry,
            ),
    {
        let mut args: Vec<String> = Vec::new();
        assert(texts(args@) =~= Seq::empty());
        if !is_absolute(terminal_path) {
            push_text(&mut args, "-na");
            push_text(&mut args, "Ghostty.app");
            push_text(&mut args, "--args");
        }
        push_string(&mut args, String::from_str("--title=").concat(title));
        let ghost head = texts(args@);
        if let Some(geometry) = geometry {
            let (columns, rows) = cells(&geometry, 10, 4);
            push_number(&mut args, "--window-width=", columns as u64);
            push_number(&mut args, "--window-height=", rows as u64);
            push_signed_number(&mut args, "--window-position-x=", geometry.x as i64);
            push_signed_number(&mut args, "--window-position-y=", geometry.y as i64);
        }
        assert(texts(args@) =~= head + Self::placement_of(geometry));
        push_text(&mut args, "-e");
        push_editor(&mut args, editor, editor_args, file_path);
        assert(texts(args@) =~= Self::arguments_of(
            terminal_path@,
            title@,
            editor@,
            slices(editor_args@),
            file_path@,
            geometry,
        ));
        args
    }
}

/// Opens the editor in a window of WezTerm.
#[derive(Debug, Clone, Copy, PartialEq, Eq, Structural)]
pub struct WezTermSpawner;

impl WezTermSpawner {
    /// The arguments for `wezterm`: a new process, at the position of the
    /// geometry if there is one.
    pub open spec fn arguments_of(
        editor: Seq<char>,
        editor_args: Seq<Seq<char>>,
        file: Seq<char>,
        geometry: Option<WindowGeometry>,
    ) -> Seq<Seq<char>> {
        seq!["start"@, "--always-new-process"@] + (match geometry {
            Some(geometry) => seq![
                "--position"@,
                "screen:"@ + signed_decimal(geometry.x as int) + ","@ + signed_decimal(
                    geometry.y as int,
                ),
            ],
            None => Seq::empty(),
        }) + seq!["--"@] + editor_call(editor, editor_args, file)
    }

    /// The terminal that this spawner opens.
    pub fn terminal_type(&self) -> (terminal: TerminalType)
        ensures
            terminal == TerminalType::WezTerm,
    {
        TerminalType::WezTerm
    }

    /// Computes the arguments for `wezterm`.
    pub fn arguments(
        &self,
        editor: &str,
        editor_args: &Vec<&'static str>,
        file_path: &str,
        geometry: Option<WindowGeometry>,
    ) -> (args: Vec<String>)
        ensures
            texts(args@) == Self::arguments_of(
                editor@,
                slices(editor_args@),
                file_path@,
                geometry,
            ),
    {
        let mut args: Vec<String> = Vec::new();
        assert(texts(args@) =~= Seq::empty());
        push_text(&mut args, "start");
        push_text(&mut args, "--always-new-process");
        if let Some(geometry) = geometry {
            push_text(&mut args, "--position");
            let mut position = String::from_str("screen:");
            push_signed_decimal(&mut position, geometry.x as i64);
            position.append(",");
            push_signed_decimal(&mut position, geometry.y as i64);
            assert(position@ =~= "screen:"@ + signed_decimal(geometry.x as int) + ","@
                + signed_decimal(geometry.y as int));
            push_string(&mut args, position);
        }
        push_text(&mut args, "--");
        push_editor(&mut args, editor, editor_args, file_path);
        assert(texts(args@) =~= Self::arguments_of(
            editor@,
            slices(editor_args@),
            file_path@,
            geometry,
        ));
        args
    }
}

/// The bounds of a window as a script writes them: left, top, right and
/// bottom edge, separated by commas.
pub open spec fn bounds_list(geometry: WindowGeometry) -> Seq<char> {
    signed_decimal(geometry.x as int) + ", "@ + signed_decimal(geometry.y as int) + ", "@
        + signed_decimal(geometry.x + geometry.width) + ", "@ + signed_decimal(
        geometry.y + geometry.height,
    )
}

/// The arguments of the editor as a shell line takes them: each after a
/// blank.
pub open spec fn spaced(args: Seq<Seq<char>>) -> Seq<char>
    decreases args.len(),
{
    if args.len() == 0 {
        Seq::empty()
    } else {
        spaced(args.drop_last()) + " "@ + args.last()
    }
}

/// The shell line that runs the editor on the file: the editor, its
/// arguments, and the file in single quotes.
pub open spec fn shell_line(editor: Seq<char>, editor_args: Seq<Seq<char>>, file: Seq<char>) -> Seq<
    char,
> {
    editor + spaced(editor_args) + " '"@ + file + "'"@
}

/// Appends the bounds of a window to `script`.
fn push_bounds(script: &mut String, geometry: &WindowGeometry)
    ensures
        final(script)@ == old(script)@ + bounds_list(*geometry),
{
    push_signed_decimal(script, geometry.x as i64);
    script.append(", ");
    push_signed_decimal(script, geometry.y as i64);
    script.append(", ");
    push_signed_decimal(script, geometry.x as i64 + geometry.width as i64);
    script.append(", ");
    push_signed_decimal(script, geometry.y as i64 + geometry.height as i64);
    assert(script@ =~= old(script)@ + bounds_list(*geometry));
}

/// Appends the shell line that runs the editor to `script`.
fn push_shell_line(
    script: &mut String,
    editor: &str,
    editor_args: &Vec<&'static str>,
    file_path: &str,
)
    ensures
        final(script)@ == old(script)@ + shell_line(editor@, slices(editor_args@), file_path@),
{
    script.append(editor);
    let mut at: usize = 0;
    assert(slices(editor_args@).take(0) =~= Seq::empty());
    while at < editor_args.len()
        invariant
            at <= editor_args@.len(),
            script@ == old(script)@ + editor@ + spaced(slices(editor_args@).take(at as int)),
        decreases editor_args@.len() - at,
    {
        script.append(" ");
        script.append(editor_args[at]);
        assert(slices(editor_args@).take(at + 1).drop_last() =~= slices(editor_args@).take(
            at as int,
        ));
        assert(script@ =~= old(script)@ + editor@ + spaced(slices(editor_args@).take(at + 1)));
        at += 1;
    }
    assert(slices(editor_args@).take(at as int) =~= slices(editor_args@));
    script.append(" '");
    script.append(file_path);
    script.append("'");
    assert(script@ =~= old(script)@ + shell_line(editor@, slices(editor_args@), file_path@));
}

/// Opens the editor in a window of iTerm, by a script.
#[derive(Debug, Clone, Copy, PartialEq, Eq, Structural)]
pub struct ITermSpawner;

/// The script for iTerm up to the bounds of the window.
pub const ITERM_OPEN_AT: &'static str = r#"
            tell application "iTerm"
                activate
                set newWindow to (create window with default profile)
                set bounds of newWindow to {"#;

/// The script for iTerm between the bounds of the window and the shell line.
pub const ITERM_THEN_WRITE: &'static str = r#"}
                tell current session of newWindow
                    write text ""#;

/// The script for iTerm up to the shell line, for a window without bounds.
pub const ITERM_OPEN: &'static str = r#"
            tell application "iTerm"
                activate
                set newWindow to (create window with default profile)
                tell current session of newWindow
                    write text ""#;

/// The end of the script for iTerm: the shell leaves with the editor.
pub const ITERM_CLOSE: &'static str = r#"; exit"
                end tell
            end tell
            "#;

impl ITermSpawner {
    /// The script that opens a window of iTerm, at the bounds of `geometry`
    /// if there is one, and runs the editor in it.
    pub open spec fn script_of(
        editor: Seq<char>,
        editor_args: Seq<Seq<char>>,
        file: Seq<char>,
        geometry: Option<WindowGeometry>,
    ) -> Seq<char> {
        match geometry {
            Some(geometry) => ITERM_OPEN_AT@ + bounds_list(geometry) + ITERM_THEN_WRITE@
                + shell_line(editor, editor_args, file) + ITERM_CLOSE@,
            None => ITERM_OPEN@ + shell_line(editor, editor_args, file) + ITERM_CLOSE@,
        }
    }

    /// The terminal that this spawner opens.
    pub fn terminal_type(&self) -> (terminal: TerminalType)
        ensures
            terminal == TerminalType::ITerm,
    {
        TerminalType::ITerm
    }

    /// Computes the script for iTerm.
    pub fn script(
        &self,
        editor: &str,
        editor_args: &Vec<&'static str>,
        file_path: &str,
        geometry: Option<WindowGeometry>,
    ) -> (script: String)
        ensures
            script@ == Self::script_of(editor@, slices(editor_args@), file_path@, geometry),
    {
        let mut script = String::new();
        match geometry {
            Some(geometry) => {
                script.append(ITERM_OPEN_AT);
                push_bounds(&mut script, &geometry);
                script.append(ITERM_THEN_WRITE);
            },
            None => {
                script.append(ITERM_OPEN);
            },
        }
        push_shell_line(&mut script, editor, editor_args, file_path);
        script.append(ITERM_CLOSE);
        assert(script@ =~= Self::script_of(editor@, slices(editor_args@), file_path@, geometry));
        script
    }
}

/// Opens the editor in a window of the system's terminal, by a script.
#[derive(Debug, Clone, Copy, PartialEq, Eq, Structural)]
pub struct TerminalAppSpawner;

/// The script for the system's terminal up to the shell line.
pub const TERMINAL_OPEN: &'static str = r#"
            tell application "Terminal"
                activate
                do script ""#;

/// The script for the system's terminal between the shell line and the
/// bounds of the window.
pub const TERMINAL_THEN_PLACE: &'static str = r#""
                set bounds of front window to {"#;

/// The end of the script for the system's terminal after the bounds.
pub const TERMINAL_CLOSE_PLACED: &'static str = r#"}
            end tell
            "#;

/// The end of the script for the system's terminal, for a window without
/// bounds.
pub const TERMINAL_CLOSE: &'static str = r#""
            end tell
            "#;

impl TerminalAppSpawner {
    /// The script that runs the editor in a window of the system's terminal
    /// and places the window at the bounds of `geometry`, if there is one.
    pub open spec fn script_of(
        editor: Seq<char>,
        editor_args: Seq<Seq<char>>,
        file: Seq<char>,
        geometry: Option<WindowGeometry>,
    ) -> Seq<char> {
        match geometry {
            Some(geometry) => TERMINAL_OPEN@ + shell_line(editor, editor_args, file)
                + TERMINAL_THEN_PLACE@ + bounds_list(geometry) + TERMINAL_CLOSE_PLACED@,
            None => TERMINAL_OPEN@ + shell_line(editor, editor_args, file) + TERMINAL_CLOSE@,
        }
    }

    /// The terminal that this spawner opens.
    pub fn terminal_type(&self) -> (terminal: TerminalType)
        ensures
            terminal == TerminalType::Default,
    {
        TerminalType::Default
    }

    /// Computes the script for the system's terminal.
    pub fn script(
        &self,
        editor: &str,
        editor_args: &Vec<&'static str>,
        file_path: &str,
        geometry: Option<WindowGeometry>,
    ) -> (script: String)
        ensures
            script@ == Self::script_of(editor@, slices(editor_args@), file_path@, geometry),
    {
        let mut script = String::from_str(TERMINAL_OPEN);
        push_shell_line(&mut script, editor, editor_args, file_path);
        match geometry {
            Some(geometry) => {
                script.append(TERMINAL_THEN_PLACE);
                push_bounds(&mut script, &geometry);
                script.append(TERMINAL_CLOSE_PLACED);
            },
            None => {
                script.append(TERMINAL_CLOSE);
            },
        }
        assert(script@ =~= Self::script_of(editor@, slices(editor_args@), file_path@, geometry));
        script
    }
}

} // verus!
