//! Mode directives from outside the keyboard: the commands that a control
//! client can send, what each does to the state machine, and how a command
//! line names them. Carrying them over a socket is the caller's part.

use vstd::prelude::*;
use vstd::string::StringExecFns;

use crate::modes::VimMode;
use crate::state::VimState;
use crate::text::{lowercase, lowercased, str_eq};

verus! {

/// A directive to the engine.
#[derive(Debug, Clone, PartialEq, Eq)]
pub enum IpcCommand {
    /// Ask for the active mode.
    GetMode,
    /// Enter the mode of the given name.
    SetMode(String),
    /// Toggle between insert and normal mode.
    Toggle,
    /// Enter insert mode.
    Insert,
    /// Enter normal mode.
    Normal,
    /// Enter visual mode.
    Visual,
}

/// The engine's answer to a directive.
#[derive(Debug, Clone, PartialEq, Eq)]
pub enum IpcResponse {
    /// The name of a mode.
    Mode(String),
    /// The directive was carried out.
    Done,
    /// The directive was refused, for the given reason.
    Error(String),
}

/// A directive, with its text as mathematics.
pub enum Directive {
    GetMode,
    SetMode(Seq<char>),
    Toggle,
    Insert,
    Normal,
    Visual,
}

/// An answer, with its text as mathematics.
pub enum Reply {
    Mode(Seq<char>),
    Done,
    Error(Seq<char>),
}

impl View for IpcCommand {
    type V = Directive;

    open spec fn view(&self) -> Directive {
        match self {
            IpcCommand::GetMode => Directive::GetMode,
            IpcCommand::SetMode(name) => Directive::SetMode(name@),
            IpcCommand::Toggle => Directive::Toggle,
            IpcCommand::Insert => Directive::Insert,
            IpcCommand::Normal => Directive::Normal,
            IpcCommand::Visual => Directive::Visual,
        }
    }
}

impl View for IpcResponse {
    type V = Reply;

    open spec fn view(&self) -> Reply {
        match self {
            IpcResponse::Mode(name) => Reply::Mode(name@),
            IpcResponse::Done => Reply::Done,
            IpcResponse::Error(reason) => Reply::Error(reason@),
        }
    }
}

/// What a command line asks for.
#[derive(Debug, Clone, PartialEq, Eq)]
pub enum CliRequest {
    /// Send this directive to the engine.
    Send(IpcCommand),
    /// Show the usage and end with success.
    Help,
    /// No command was given: show the usage and fail.
    NoCommand,
    /// `set` was given without a mode: say so and fail.
    SetWithoutMode,
    /// The command is unknown: name it, show the usage and fail.
    Unknown(String),
}

/// What a command line asks for, with its text as mathematics.
pub enum Request {
    Send(Directive),
    Help,
    NoCommand,
    SetWithoutMode,
    Unknown(Seq<char>),
}

impl View for CliRequest {
    type V = Request;

    open spec fn view(&self) -> Request {
        match self {
            CliRequest::Send(command) => Request::Send(command@),
            CliRequest::Help => Request::Help,
            CliRequest::NoCommand => Request::NoCommand,
            CliRequest::SetWithoutMode => Request::SetWithoutMode,
            CliRequest::Unknown(command) => Request::Unknown(command@),
        }
    }
}

/// The mode that a lowercase name stands for: the full name of a mode or
/// its first letter.
pub open spec fn mode_named(name: Seq<char>) -> Option<VimMode> {
    if name == "insert"@ || name == "i"@ {
        Some(VimMode::Insert)
    } else if name == "normal"@ || name == "n"@ {
        Some(VimMode::Normal)
    } else if name == "visual"@ || name == "v"@ {
        Some(VimMode::Visual)
    } else {
        None
    }
}

/// The mode that the lowercase name `name` stands for, if it names one.
pub fn mode_from_lowercase(name: &str) -> (mode: Option<VimMode>)
    ensures
        mode == mode_named(name@),
{
    if str_eq(name, "insert") || str_eq(name, "i") {
        Some(VimMode::Insert)
    } else if str_eq(name, "normal") || str_eq(name, "n") {
        Some(VimMode::Normal)
    } else if str_eq(name, "visual") || str_eq(name, "v") {
        Some(VimMode::Visual)
    } else {
        None
    }
}

/// Enters the mode that `mode_str` names, letter case ignored, and answers
/// `Done`; an unknown name changes nothing and is answered by an error that
/// repeats it.
pub fn handle_set_mode(state: &mut VimState, mode_str: &str) -> (response: IpcResponse)
    ensures
        match mode_named(lowercased(mode_str@)) {
            Some(mode) => final(state)@ == old(state)@.entered(mode) && response@ == Reply::Done,
            None => final(state)@ == old(state)@ && response@ == Reply::Error(
                "Unknown mode: "@ + mode_str@,
            ),
        },
{
    let lowered = lowercase(mode_str);
    match mode_from_lowercase(lowered.as_str()) {
        Some(mode) => {
            state.set_mode_external(mode);
            IpcResponse::Done
        },
        None => IpcResponse::Error(String::from_str("Unknown mode: ").concat(mode_str)),
    }
}

/// Carries out a directive on the state machine and answers it. The
/// directives go through the same entries as the keyboard, so a change of
/// mode is announced as any other.
pub fn handle_ipc_command(state: &mut VimState, cmd: IpcCommand) -> (response: IpcResponse)
    ensures
        match cmd@ {
            Directive::GetMode => final(state)@ == old(state)@ && response@ == Reply::Mode(
                old(state)@.mode.name(),
            ),
            Directive::Toggle => final(state)@ == old(state)@.toggled() && response@
                == Reply::Mode(old(state)@.toggle_target().name()),
            Directive::Insert => final(state)@ == old(state)@.entered(VimMode::Insert)
                && response@ == Reply::Done,
            Directive::Normal => final(state)@ == old(state)@.entered(VimMode::Normal)
                && response@ == Reply::Done,
            Directive::Visual => final(state)@ == old(state)@.entered(VimMode::Visual)
                && response@ == Reply::Done,
            Directive::SetMode(name) => match mode_named(lowercased(name)) {
                Some(mode) => final(state)@ == old(state)@.entered(mode) && response@
                    == Reply::Done,
                None => final(state)@ == old(state)@ && response@ == Reply::Error(
                    "Unknown mode: "@ + name,
                ),
            },
        },
{
    match cmd {
        IpcCommand::GetMode => IpcResponse::Mode(String::from_str(state.mode().as_str())),
        IpcCommand::Toggle => {
            let new_mode = state.toggle_mode();
            IpcResponse::Mode(String::from_str(new_mode.as_str()))
        },
        IpcCommand::Insert => {
            state.set_mode_external(VimMode::Insert);
            IpcResponse::Done
        },
        IpcCommand::Normal => {
            state.set_mode_external(VimMode::Normal);
            IpcResponse::Done
        },
        IpcCommand::Visual => {
            state.set_mode_external(VimMode::Visual);
            IpcResponse::Done
        },
        IpcCommand::SetMode(mode_str) => handle_set_mode(state, mode_str.as_str()),
    }
}

/// What the command line `args` asks for, where `args[0]` is the program's
/// name, `args[1]` the command and `args[2]` the mode of `set`.
pub open spec fn request_of(args: Seq<Seq<char>>) -> Request {
    if args.len() < 2 {
        Request::NoCommand
    } else {
        let command = args[1];
        if command == "mode"@ || command == "get"@ || command == "status"@ {
            Request::Send(Directive::GetMode)
        } else if command == "toggle"@ || command == "t"@ {
            Request::Send(Directive::Toggle)
        } else if command == "insert"@ || command == "i"@ {
            Request::Send(Directive::Insert)
        } else if command == "normal"@ || command == "n"@ {
            Request::Send(Directive::Normal)
        } else if command == "visual"@ || command == "v"@ {
            Request::Send(Directive::Visual)
        } else if command == "set"@ {
            if args.len() < 3 {
                Request::SetWithoutMode
            } else {
                Request::Send(Directive::SetMode(args[2]))
            }
        } else if command == "help"@ || command == "-h"@ || command == "--help"@ {
            Request::Help
        } else {
            Request::Unknown(command)
        }
    }
}

/// Reads a command line.
pub fn command_from_args(args: &Vec<String>) -> (request: CliRequest)
    ensures
        request@ == request_of(args@.map_values(|arg: String| arg@)),
{
    let ghost texts = args@.map_values(|arg: String| arg@);
    if args.len() < 2 {
        return CliRequest::NoCommand;
    }
    let command = args[1].as_str();
    assert(command@ == texts[1]);
    if str_eq(command, "mode") || str_eq(command, "get") || str_eq(command, "status") {
        CliRequest::Send(IpcCommand::GetMode)
    } else if str_eq(command, "toggle") || str_eq(command, "t") {
        CliRequest::Send(IpcCommand::Toggle)
    } else if str_eq(command, "insert") || str_eq(command, "i") {
        CliRequest::Send(IpcCommand::Insert)
    } else if str_eq(command, "normal") || str_eq(command, "n") {
        CliRequest::Send(IpcCommand::Normal)
    } else if str_eq(command, "visual") || str_eq(command, "v") {
        CliRequest::Send(IpcCommand::Visual)
    } else if str_eq(command, "set") {
        if args.len() < 3 {
            CliRequest::SetWithoutMode
        } else {
            assert(args@[2]@ == texts[2]);
            CliRequest::Send(IpcCommand::SetMode(args[2].clone()))
        }
    } else if str_eq(command, "help") || str_eq(command, "-h") || str_eq(command, "--help") {
        CliRequest::Help
    } else {
        CliRequest::Unknown(String::from_str(command))
    }
}

} // verus!
