use ovim::applescript::{
    click_point, find_window_script, focus_window_script, move_window_script,
    set_window_size_script, window_bounds_script, window_index, window_position,
    LIST_WINDOW_TITLES,
};
use ovim::spawn::{
    window_title, AlacrittySpawner, GhosttySpawner, ITermSpawner, KittySpawner,
    TerminalAppSpawner, WezTermSpawner,
};
use ovim::terminal::{TerminalType, WindowGeometry};

fn strings(words: &[&str]) -> Vec<String> {
    words.iter().map(|word| word.to_string()).collect()
}

fn geometry() -> WindowGeometry {
    WindowGeometry { x: 120, y: -40, width: 800, height: 480 }
}

#[test]
fn spawners_know_their_terminal() {
    assert_eq!(AlacrittySpawner.terminal_type(), TerminalType::Alacritty);
    assert_eq!(GhosttySpawner.terminal_type(), TerminalType::Ghostty);
    assert_eq!(KittySpawner.terminal_type(), TerminalType::Kitty);
    assert_eq!(WezTermSpawner.terminal_type(), TerminalType::WezTerm);
    assert_eq!(ITermSpawner.terminal_type(), TerminalType::ITerm);
    assert_eq!(TerminalAppSpawner.terminal_type(), TerminalType::Default);
}

#[test]
fn window_titles_end_in_the_process_identifier() {
    assert_eq!(window_title(4711), "ovim-edit-4711");
    assert_eq!(window_title(0), "ovim-edit-0");
    assert_eq!(window_title(u32::MAX), "ovim-edit-4294967295");
}

#[test]
fn alacritty_arguments() {
    let args = AlacrittySpawner.arguments(
        "ovim-edit-7",
        "/usr/bin/nvim",
        &vec!["+normal G$"],
        "/tmp/edit.txt",
        Some(geometry()),
        true,
    );
    assert_eq!(
        args,
        strings(&[
            "msg",
            "create-window",
            "-o",
            "window.title=\"ovim-edit-7\"",
            "-o",
            "window.dynamic_title=false",
            "-o",
            "window.startup_mode=\"Windowed\"",
            "-o",
            "window.dimensions.columns=100",
            "-o",
            "window.dimensions.lines=30",
            "-e",
            "/usr/bin/nvim",
            "+normal G$",
            "/tmp/edit.txt",
        ])
    );
}

#[test]
fn alacritty_arguments_for_a_new_instance_without_geometry() {
    let args =
        AlacrittySpawner.arguments("t", "hx", &Vec::new(), "/tmp/edit.txt", None, false);
    assert_eq!(
        args,
        strings(&[
            "-o",
            "window.title=\"t\"",
            "-o",
            "window.dynamic_title=false",
            "-o",
            "window.startup_mode=\"Windowed\"",
            "-o",
            "window.dimensions.columns=80",
            "-o",
            "window.dimensions.lines=24",
            "-e",
            "hx",
            "/tmp/edit.txt",
        ])
    );
}

#[test]
fn alacritty_window_is_at_least_40_by_10() {
    let small = WindowGeometry { x: 0, y: 0, width: 100, height: 100 };
    let args = AlacrittySpawner.arguments("t", "vim", &Vec::new(), "f", Some(small), false);
    assert_eq!(args[7], "window.dimensions.columns=40");
    assert_eq!(args[9], "window.dimensions.lines=10");
}

#[test]
fn kitty_program_and_arguments() {
    assert_eq!(KittySpawner.program(true), "/Applications/kitty.app/Contents/MacOS/kitty");
    assert_eq!(KittySpawner.program(false), "kitty");
    let args = KittySpawner.arguments(
        "ovim-edit-7",
        "nvim",
        &vec!["+normal G$"],
        "/tmp/edit.txt",
        Some(geometry()),
    );
    assert_eq!(
        args,
        strings(&[
            "--single-instance",
            "--wait-for-single-instance-window-close",
            "--title",
            "ovim-edit-7",
            "-o",
            "close_on_child_death=yes",
            "--position",
            "120x-40",
            "-o",
            "initial_window_width=100c",
            "-o",
            "initial_window_height=30c",
            "-o",
            "remember_window_size=no",
            "nvim",
            "+normal G$",
            "/tmp/edit.txt",
        ])
    );
    let plain = KittySpawner.arguments("t", "nvim", &Vec::new(), "f", None);
    assert_eq!(
        plain,
        strings(&[
            "--single-instance",
            "--wait-for-single-instance-window-close",
            "--title",
            "t",
            "-o",
            "close_on_child_death=yes",
            "nvim",
            "f",
        ])
    );
}

#[test]
fn ghostty_opened_by_the_system() {
    for terminal_path in ["ghostty", "", "bin/ghostty"] {
        assert_eq!(GhosttySpawner.program(terminal_path), "open");
        let args = GhosttySpawner.arguments(
            terminal_path,
            "ovim-edit-7",
            "nvim",
            &vec!["+normal G$"],
            "/tmp/edit.txt",
            Some(geometry()),
        );
        assert_eq!(
            args,
            strings(&[
                "-na",
                "Ghostty.app",
                "--args",
                "--title=ovim-edit-7",
                "--window-width=100",
                "--window-height=30",
                "--window-position-x=120",
                "--window-position-y=-40",
                "-e",
                "nvim",
                "+normal G$",
                "/tmp/edit.txt",
            ])
        );
    }
}

#[test]
fn ghostty_run_directly() {
    let path = "/opt/ghostty/bin/ghostty";
    assert_eq!(GhosttySpawner.program(path), path);
    let args = GhosttySpawner.arguments(path, "t", "vim", &Vec::new(), "f", None);
    assert_eq!(args, strings(&["--title=t", "-e", "vim", "f"]));
    let tiny = WindowGeometry { x: 1, y: 2, width: 8, height: 16 };
    let args = GhosttySpawner.arguments(path, "t", "vim", &Vec::new(), "f", Some(tiny));
    assert_eq!(args[1], "--window-width=10");
    assert_eq!(args[2], "--window-height=4");
}

#[test]
fn wezterm_arguments() {
    assert_eq!(
        WezTermSpawner.arguments("nvim", &vec!["+normal G$"], "/tmp/edit.txt", Some(geometry())),
        strings(&[
            "start",
            "--always-new-process",
            "--position",
            "screen:120,-40",
            "--",
            "nvim",
            "+normal G$",
            "/tmp/edit.txt",
        ])
    );
    assert_eq!(
        WezTermSpawner.arguments("hx", &Vec::new(), "f", None),
        strings(&["start", "--always-new-process", "--", "hx", "f"])
    );
}

#[test]
fn iterm_scripts() {
    let geo = geometry();
    assert_eq!(
        ITermSpawner.script("nvim", &vec!["+normal G$"], "/tmp/edit.txt", Some(geo)),
        format!(
            r#"
            tell application "iTerm"
                activate
                set newWindow to (create window with default profile)
                set bounds of newWindow to {{{}, {}, {}, {}}}
                tell current session of newWindow
                    write text "{}{} '{}'; exit"
                end tell
            end tell
            "#,
            geo.x,
            geo.y,
            geo.x + geo.width as i32,
            geo.y + geo.height as i32,
            "nvim",
            " +normal G$",
            "/tmp/edit.txt"
        )
    );
    assert_eq!(
        ITermSpawner.script("hx", &Vec::new(), "/tmp/edit.txt", None),
        format!(
            r#"
            tell application "iTerm"
                activate
                set newWindow to (create window with default profile)
                tell current session of newWindow
                    write text "{}{} '{}'; exit"
                end tell
            end tell
            "#,
            "hx", "", "/tmp/edit.txt"
        )
    );
}

#[test]
fn terminal_app_scripts() {
    let geo = geometry();
    assert_eq!(
        TerminalAppSpawner.script("nvim", &vec!["-u", "NONE"], "/tmp/edit.txt", Some(geo)),
        format!(
            r#"
            tell application "Terminal"
                activate
                do script "{}{} '{}'"
                set bounds of front window to {{{}, {}, {}, {}}}
            end tell
            "#,
            "nvim",
            " -u NONE",
            "/tmp/edit.txt",
            geo.x,
            geo.y,
            geo.x + geo.width as i32,
            geo.y + geo.height as i32
        )
    );
    assert_eq!(
        TerminalAppSpawner.script("hx", &Vec::new(), "/tmp/edit.txt", None),
        format!(
            r#"
            tell application "Terminal"
                activate
                do script "{}{} '{}'"
            end tell
            "#,
            "hx", "", "/tmp/edit.txt"
        )
    );
}

#[test]
fn script_bounds_are_left_top_right_bottom() {
    let script = ITermSpawner.script("vim", &Vec::new(), "f", Some(geometry()));
    assert!(script.contains("set bounds of newWindow to {120, -40, 920, 440}"));
    let wide = WindowGeometry { x: i32::MAX, y: i32::MIN, width: u32::MAX, height: 0 };
    let script = TerminalAppSpawner.script("vim", &Vec::new(), "f", Some(wide));
    assert!(script
        .contains("set bounds of front window to {2147483647, -2147483648, 6442450942, -2147483648}"));
}

#[test]
fn window_size_script() {
    assert_eq!(
        set_window_size_script("WezTerm", 800, 480),
        format!(
            r#"
        tell application "System Events"
            tell process "{}"
                try
                    set size of front window to {{{}, {}}}
                end try
            end tell
        end tell
        "#,
            "WezTerm", 800, 480
        )
    );
}

#[test]
fn window_move_script() {
    assert_eq!(
        move_window_script("Alacritty", -12, 34),
        format!(
            r#"
        tell application "System Events"
            tell process "{}"
                try
                    set position of front window to {{{}, {}}}
                end try
            end tell
        end tell
        "#,
            "Alacritty", -12, 34
        )
    );
}

#[test]
fn window_list_and_find_scripts() {
    assert_eq!(
        LIST_WINDOW_TITLES,
        r#"
        tell application "System Events"
            tell process "Alacritty"
                set windowNames to {}
                repeat with i from 1 to (count of windows)
                    set end of windowNames to name of window i
                end repeat
                return windowNames
            end tell
        end tell
        "#
    );
    assert_eq!(
        find_window_script("ovim-edit-7"),
        format!(
            r#"
        tell application "System Events"
            tell process "Alacritty"
                set windowIndex to 0
                repeat with i from 1 to (count of windows)
                    set w to window i
                    if name of w contains "{}" then
                        return i
                    end if
                end repeat
                return 0
            end tell
        end tell
        "#,
            "ovim-edit-7"
        )
    );
}

#[test]
fn window_place_script() {
    assert_eq!(
        window_bounds_script("Alacritty", 3, -5, 60, 800, 480),
        format!(
            r#"
        tell application "System Events"
            tell process "{}"
                if (count of windows) >= {} then
                    set w to window {}
                    set position of w to {{{}, {}}}
                    set size of w to {{{}, {}}}
                end if
            end tell
        end tell
        "#,
            "Alacritty", 3, 3, -5, 60, 800, 480
        )
    );
}

#[test]
fn window_focus_script() {
    assert_eq!(
        focus_window_script(2),
        format!(
            r#"
        tell application "System Events"
            tell process "Alacritty"
                if (count of windows) >= {} then
                    set w to window {}
                    -- Raise just this window to the front
                    perform action "AXRaise" of w
                    -- Return the window position for clicking
                    set winPos to position of w
                    return (item 1 of winPos) & "," & (item 2 of winPos)
                end if
            end tell
        end tell
        "#,
            2, 2
        )
    );
}

#[test]
fn window_index_from_an_answer() {
    assert_eq!(window_index("3\n"), Some(3));
    assert_eq!(window_index("  12 "), Some(12));
    assert_eq!(window_index("+4"), Some(4));
    assert_eq!(window_index("0"), None);
    assert_eq!(window_index(""), None);
    assert_eq!(window_index("-1"), None);
    assert_eq!(window_index("3 4"), None);
    assert_eq!(window_index("three"), None);
    assert_eq!(window_index("99999999999999999999999"), None);
}

#[test]
fn window_position_from_an_answer() {
    assert_eq!(window_position("100,200\n"), Some((100, 200)));
    assert_eq!(window_position(" -5 , +7 "), Some((-5, 7)));
    assert_eq!(window_position("2147483647,-2147483648"), Some((i32::MAX, i32::MIN)));
    assert_eq!(window_position("2147483648,0"), None);
    assert_eq!(window_position("0,-2147483649"), None);
    assert_eq!(window_position("100"), None);
    assert_eq!(window_position("100,"), None);
    assert_eq!(window_position(",100"), None);
    assert_eq!(window_position("1,2,3"), None);
    assert_eq!(window_position("1.5,2"), None);
    assert_eq!(window_position(""), None);
}

#[test]
fn click_point_is_inside_the_window() {
    assert_eq!(click_point((100, 200)), (150, 250));
    assert_eq!(click_point((i32::MAX, i32::MIN)), (2147483697, -2147483598));
}
