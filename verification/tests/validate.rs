use ovim::validate::{
    editor_command, scripted_terminal_app, terminal_command, terminal_is_scripted,
    validate_editor, validate_nvim_edit_paths, validate_terminal,
};

fn found(path: &str) -> Option<String> {
    Some(path.to_string())
}

#[test]
fn scripted_terminals() {
    assert!(terminal_is_scripted("iterm"));
    assert!(terminal_is_scripted("default"));
    assert!(!terminal_is_scripted("kitty"));
    assert!(!terminal_is_scripted("iTerm"));
    assert_eq!(scripted_terminal_app("iterm"), "/Applications/iTerm.app");
    assert_eq!(scripted_terminal_app("default"), "/Applications/Utilities/Terminal.app");
}

#[test]
fn terminal_commands() {
    assert_eq!(terminal_command("kitty", ""), "kitty");
    assert_eq!(terminal_command("kitty", "/opt/kitty"), "/opt/kitty");
}

#[test]
fn editor_commands() {
    assert_eq!(editor_command("neovim", ""), found("nvim"));
    assert_eq!(editor_command("vim", ""), found("vim"));
    assert_eq!(editor_command("helix", ""), found("hx"));
    assert_eq!(editor_command("custom", ""), None);
    assert_eq!(editor_command("kakoune", ""), found("kakoune"));
    assert_eq!(editor_command("custom", "/usr/bin/ed"), found("/usr/bin/ed"));
    assert_eq!(editor_command("neovim", "/usr/bin/ed"), found("/usr/bin/ed"));
}

#[test]
fn scripted_terminal_is_valid_when_installed() {
    assert_eq!(
        validate_terminal("iterm", "", true, None),
        (true, "/Applications/iTerm.app".to_string(), None)
    );
    assert_eq!(
        validate_terminal("default", "/ignored", true, found("/ignored")),
        (true, "/Applications/Utilities/Terminal.app".to_string(), None)
    );
}

#[test]
fn system_terminal_always_counts_as_present() {
    assert_eq!(
        validate_terminal("default", "", false, None),
        (true, "Terminal.app".to_string(), None)
    );
}

#[test]
fn missing_iterm_is_reported() {
    assert_eq!(
        validate_terminal("iterm", "", false, found("/usr/bin/iterm")),
        (
            false,
            String::new(),
            Some("iTerm2 not found at /Applications/iTerm.app".to_string())
        )
    );
}

#[test]
fn executable_terminal_is_valid_where_found() {
    assert_eq!(
        validate_terminal("kitty", "", false, found("/usr/local/bin/kitty")),
        (true, "/usr/local/bin/kitty".to_string(), None)
    );
    assert_eq!(
        validate_terminal("kitty", "", true, found("/usr/local/bin/kitty")),
        (true, "/usr/local/bin/kitty".to_string(), None)
    );
}

#[test]
fn missing_terminal_is_reported_by_name() {
    let cases = [
        ("alacritty", "Alacritty"),
        ("kitty", "Kitty"),
        ("wezterm", "WezTerm"),
        ("ghostty", "Ghostty"),
        ("foot", "foot"),
    ];
    for (terminal_type, name) in cases {
        assert_eq!(
            validate_terminal(terminal_type, "", false, None),
            (
                false,
                String::new(),
                Some(format!("{} not found. Install it or specify a custom path.", name))
            )
        );
    }
}

#[test]
fn missing_terminal_path_is_reported_by_path() {
    assert_eq!(
        validate_terminal("kitty", "/opt/kitty", false, None),
        (
            false,
            String::new(),
            Some("Path '/opt/kitty' not found or not executable".to_string())
        )
    );
}

#[test]
fn custom_editor_needs_a_path() {
    assert_eq!(
        validate_editor("custom", "", found("/usr/bin/ed")),
        (false, String::new(), Some("Custom editor requires a path".to_string()))
    );
}

#[test]
fn editor_is_valid_where_found() {
    assert_eq!(
        validate_editor("neovim", "", found("/opt/homebrew/bin/nvim")),
        (true, "/opt/homebrew/bin/nvim".to_string(), None)
    );
    assert_eq!(
        validate_editor("custom", "/usr/bin/ed", found("/usr/bin/ed")),
        (true, "/usr/bin/ed".to_string(), None)
    );
}

#[test]
fn missing_editor_is_reported() {
    let cases = [
        ("neovim", "Neovim (nvim)"),
        ("vim", "Vim"),
        ("helix", "Helix (hx)"),
        ("kakoune", "kakoune"),
    ];
    for (editor_type, name) in cases {
        assert_eq!(
            validate_editor(editor_type, "", None),
            (
                false,
                String::new(),
                Some(format!("{} not found. Install it or specify a custom path.", name))
            )
        );
    }
    assert_eq!(
        validate_editor("custom", "/usr/bin/ed", None),
        (
            false,
            String::new(),
            Some("Path '/usr/bin/ed' not found or not executable".to_string())
        )
    );
}

#[test]
fn both_judgements_together() {
    let validation = validate_nvim_edit_paths(
        "kitty",
        "",
        "custom",
        "",
        false,
        found("/usr/bin/kitty"),
        None,
    );
    assert!(validation.terminal_valid);
    assert_eq!(validation.terminal_resolved_path, "/usr/bin/kitty");
    assert_eq!(validation.terminal_error, None);
    assert!(!validation.editor_valid);
    assert_eq!(validation.editor_resolved_path, "");
    assert_eq!(validation.editor_error, Some("Custom editor requires a path".to_string()));
}
