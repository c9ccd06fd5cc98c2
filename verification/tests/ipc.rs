use ovim::ipc::{
    command_from_args, handle_ipc_command, handle_set_mode, mode_from_lowercase, CliRequest,
    IpcCommand, IpcResponse,
};
use ovim::keycode::{KeyCode, KeyEvent, Modifiers};
use ovim::modes::VimMode;
use ovim::state::VimState;
use tokio::sync::broadcast::error::TryRecvError;

fn args(words: &[&str]) -> Vec<String> {
    words.iter().map(|word| word.to_string()).collect()
}

#[test]
fn get_mode_answers_the_mode_name() {
    let (mut state, mut rx) = VimState::new();
    assert_eq!(
        handle_ipc_command(&mut state, IpcCommand::GetMode),
        IpcResponse::Mode("insert".to_string())
    );
    state.set_mode_external(VimMode::Visual);
    assert_eq!(
        handle_ipc_command(&mut state, IpcCommand::GetMode),
        IpcResponse::Mode("visual".to_string())
    );
    assert_eq!(state.mode(), VimMode::Visual);
    assert_eq!(rx.try_recv(), Ok(VimMode::Visual));
    assert_eq!(rx.try_recv(), Err(TryRecvError::Empty));
}

#[test]
fn toggle_directive() {
    let (mut state, mut rx) = VimState::new();
    assert_eq!(
        handle_ipc_command(&mut state, IpcCommand::Toggle),
        IpcResponse::Mode("normal".to_string())
    );
    assert_eq!(state.mode(), VimMode::Normal);
    assert_eq!(
        handle_ipc_command(&mut state, IpcCommand::Toggle),
        IpcResponse::Mode("insert".to_string())
    );
    assert_eq!(state.mode(), VimMode::Insert);
    assert_eq!(rx.try_recv(), Ok(VimMode::Normal));
    assert_eq!(rx.try_recv(), Ok(VimMode::Insert));
    assert_eq!(rx.try_recv(), Err(TryRecvError::Empty));
}

#[test]
fn mode_directives() {
    let (mut state, mut rx) = VimState::new();
    assert_eq!(handle_ipc_command(&mut state, IpcCommand::Normal), IpcResponse::Done);
    assert_eq!(state.mode(), VimMode::Normal);
    assert_eq!(handle_ipc_command(&mut state, IpcCommand::Visual), IpcResponse::Done);
    assert_eq!(state.mode(), VimMode::Visual);
    assert_eq!(handle_ipc_command(&mut state, IpcCommand::Insert), IpcResponse::Done);
    assert_eq!(state.mode(), VimMode::Insert);
    // A request for the active mode is granted, but not announced.
    assert_eq!(handle_ipc_command(&mut state, IpcCommand::Insert), IpcResponse::Done);
    assert_eq!(rx.try_recv(), Ok(VimMode::Normal));
    assert_eq!(rx.try_recv(), Ok(VimMode::Visual));
    assert_eq!(rx.try_recv(), Ok(VimMode::Insert));
    assert_eq!(rx.try_recv(), Err(TryRecvError::Empty));
}

#[test]
fn directives_drop_pending_state_like_the_keyboard() {
    let (mut state, _rx) = VimState::new();
    handle_ipc_command(&mut state, IpcCommand::Normal);
    let d = KeyEvent { code: KeyCode::D.as_raw(), modifiers: Modifiers::default(), is_key_down: true };
    state.process_key(d);
    assert_eq!(state.get_pending_keys(), "d");
    handle_ipc_command(&mut state, IpcCommand::Normal);
    assert_eq!(state.get_pending_keys(), "d");
    handle_ipc_command(&mut state, IpcCommand::SetMode("visual".to_string()));
    assert_eq!(state.get_pending_keys(), "");
}

#[test]
fn set_mode_by_name() {
    let cases = [
        ("insert", VimMode::Insert),
        ("i", VimMode::Insert),
        ("normal", VimMode::Normal),
        ("n", VimMode::Normal),
        ("N", VimMode::Normal),
        ("visual", VimMode::Visual),
        ("v", VimMode::Visual),
        ("VISUAL", VimMode::Visual),
        ("Insert", VimMode::Insert),
    ];
    for (name, mode) in cases {
        let (mut state, _rx) = VimState::new();
        state.set_mode_external(if mode == VimMode::Normal {
            VimMode::Visual
        } else {
            VimMode::Normal
        });
        assert_eq!(handle_set_mode(&mut state, name), IpcResponse::Done);
        assert_eq!(state.mode(), mode);
        let (mut state, _rx) = VimState::new();
        assert_eq!(
            handle_ipc_command(&mut state, IpcCommand::SetMode(name.to_string())),
            IpcResponse::Done
        );
        assert_eq!(state.mode(), mode);
    }
}

#[test]
fn unknown_mode_is_refused() {
    let (mut state, mut rx) = VimState::new();
    state.set_mode_external(VimMode::Normal);
    assert_eq!(
        handle_set_mode(&mut state, "Replace"),
        IpcResponse::Error("Unknown mode: Replace".to_string())
    );
    assert_eq!(
        handle_ipc_command(&mut state, IpcCommand::SetMode(String::new())),
        IpcResponse::Error("Unknown mode: ".to_string())
    );
    assert_eq!(state.mode(), VimMode::Normal);
    assert_eq!(rx.try_recv(), Ok(VimMode::Normal));
    assert_eq!(rx.try_recv(), Err(TryRecvError::Empty));
}

#[test]
fn mode_names_in_lowercase() {
    assert_eq!(mode_from_lowercase("insert"), Some(VimMode::Insert));
    assert_eq!(mode_from_lowercase("n"), Some(VimMode::Normal));
    assert_eq!(mode_from_lowercase("v"), Some(VimMode::Visual));
    assert_eq!(mode_from_lowercase("Visual"), None);
    assert_eq!(mode_from_lowercase(""), None);
    assert_eq!(mode_from_lowercase("in"), None);
}

#[test]
fn command_lines() {
    let cases = [
        ("mode", IpcCommand::GetMode),
        ("get", IpcCommand::GetMode),
        ("status", IpcCommand::GetMode),
        ("toggle", IpcCommand::Toggle),
        ("t", IpcCommand::Toggle),
        ("insert", IpcCommand::Insert),
        ("i", IpcCommand::Insert),
        ("normal", IpcCommand::Normal),
        ("n", IpcCommand::Normal),
        ("visual", IpcCommand::Visual),
        ("v", IpcCommand::Visual),
    ];
    for (word, command) in cases {
        assert_eq!(command_from_args(&args(&["ti-vim", word])), CliRequest::Send(command));
    }
}

#[test]
fn set_command_line() {
    assert_eq!(
        command_from_args(&args(&["ti-vim", "set", "Normal"])),
        CliRequest::Send(IpcCommand::SetMode("Normal".to_string()))
    );
    assert_eq!(
        command_from_args(&args(&["ti-vim", "set", "visual", "extra"])),
        CliRequest::Send(IpcCommand::SetMode("visual".to_string()))
    );
    assert_eq!(command_from_args(&args(&["ti-vim", "set"])), CliRequest::SetWithoutMode);
}

#[test]
fn help_and_bad_command_lines() {
    for word in ["help", "-h", "--help"] {
        assert_eq!(command_from_args(&args(&["ti-vim", word])), CliRequest::Help);
    }
    assert_eq!(command_from_args(&args(&["ti-vim"])), CliRequest::NoCommand);
    assert_eq!(command_from_args(&args(&[])), CliRequest::NoCommand);
    assert_eq!(
        command_from_args(&args(&["ti-vim", "Toggle"])),
        CliRequest::Unknown("Toggle".to_string())
    );
    assert_eq!(
        command_from_args(&args(&["ti-vim", ""])),
        CliRequest::Unknown(String::new())
    );
}
