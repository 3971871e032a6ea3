//! Request and response bodies, and the commands the coordinator asks the
//! host to perform.  Each executable type has a view over mathematical
//! values (`Seq<char>` for strings) that the contracts speak of.

use vstd::prelude::*;
use vstd::string::StringExecFns;

verus! {

/// Which action a toggle request actually performed.
#[derive(Clone, Copy, Debug, PartialEq, Eq)]
pub enum ToggleAction {
    Opened,
    Closed,
}

/// Non-fatal conflicts: the pane is already in, or already moving toward,
/// the requested end state.
#[derive(Clone, Copy, Debug, PartialEq, Eq)]
pub enum WarningKind {
    AlreadyOpened,
    AlreadyOpening,
    AlreadyClosing,
    PaneNotFound,
    Transitioning,
}

/// Fatal conflicts and malformed input.
#[derive(Clone, Debug, PartialEq, Eq)]
pub enum ErrorKind {
    PaneIsClosing,
    PaneIsOpening,
    InvalidJson(String),
    UnknownCommand(String),
}

pub enum ErrorKindV {
    PaneIsClosing,
    PaneIsOpening,
    InvalidJson(Seq<char>),
    UnknownCommand(Seq<char>),
}

impl View for ErrorKind {
    type V = ErrorKindV;

    open spec fn view(&self) -> ErrorKindV {
        match self {
            ErrorKind::PaneIsClosing => ErrorKindV::PaneIsClosing,
            ErrorKind::PaneIsOpening => ErrorKindV::PaneIsOpening,
            ErrorKind::InvalidJson(detail) => ErrorKindV::InvalidJson(detail@),
            ErrorKind::UnknownCommand(name) => ErrorKindV::UnknownCommand(name@),
        }
    }
}

/// The single terminal response owed to each request.
#[derive(Clone, Debug, PartialEq, Eq)]
pub enum Response {
    /// Plain success: `{ok: true}`.
    Success,
    /// Toggle outcome: `{ok: true, action: ...}`.
    Toggled(ToggleAction),
    /// Non-fatal conflict: `{ok: true, warning: ...}`.
    Warning(WarningKind),
    /// Fatal conflict or malformed input: `{ok: false, error: ...}`.
    Error(ErrorKind),
}

pub enum ResponseV {
    Success,
    Toggled(ToggleAction),
    Warning(WarningKind),
    Error(ErrorKindV),
}

impl View for Response {
    type V = ResponseV;

    open spec fn view(&self) -> ResponseV {
        match self {
            Response::Success => ResponseV::Success,
            Response::Toggled(action) => ResponseV::Toggled(*action),
            Response::Warning(kind) => ResponseV::Warning(*kind),
            Response::Error(kind) => ResponseV::Error(kind@),
        }
    }
}

impl WarningKind {
    pub open spec fn spec_message(&self) -> Seq<char> {
        match self {
            WarningKind::AlreadyOpened => "pane is already opened"@,
            WarningKind::AlreadyOpening => "pane is already opening"@,
            WarningKind::AlreadyClosing => "pane is already closing"@,
            WarningKind::PaneNotFound => "pane not found"@,
            WarningKind::Transitioning => "pane is transitioning"@,
        }
    }

    /// The text carried by the `warning` field of the response body.
    pub fn message(&self) -> (r: String)
        ensures
            r@ == self.spec_message(),
    {
        match self {
            WarningKind::AlreadyOpened => String::from_str("pane is already opened"),
            WarningKind::AlreadyOpening => String::from_str("pane is already opening"),
            WarningKind::AlreadyClosing => String::from_str("pane is already closing"),
            WarningKind::PaneNotFound => String::from_str("pane not found"),
            WarningKind::Transitioning => String::from_str("pane is transitioning"),
        }
    }
}

impl ErrorKind {
    pub open spec fn spec_message(&self) -> Seq<char> {
        match self {
            ErrorKind::PaneIsClosing => "pane is closing"@,
            ErrorKind::PaneIsOpening => "pane is opening"@,
            ErrorKind::InvalidJson(detail) => "invalid json: "@ + detail@,
            ErrorKind::UnknownCommand(name) => "unknown command: "@ + name@,
        }
    }

    /// The text carried by the `error` field of the response body.
    pub fn message(&self) -> (r: String)
        ensures
            r@ == self.spec_message(),
    {
        match self {
            ErrorKind::PaneIsClosing => String::from_str("pane is closing"),
            ErrorKind::PaneIsOpening => String::from_str("pane is opening"),
            ErrorKind::InvalidJson(detail) => {
                let mut text = String::from_str("invalid json: ");
                text.append(detail.as_str());
                text
            },
            ErrorKind::UnknownCommand(name) => {
                let mut text = String::from_str("unknown command: ");
                text.append(name.as_str());
                text
            },
        }
    }
}

/// What to run in a newly opened pane.
#[derive(Clone, Debug, PartialEq, Eq)]
pub struct CommandConfig {
    pub cmd: String,
    pub args: Vec<String>,
    pub cwd: Option<String>,
}

pub struct CommandConfigV {
    pub cmd: Seq<char>,
    pub args: Seq<Seq<char>>,
    pub cwd: Option<Seq<char>>,
}

impl View for CommandConfig {
    type V = CommandConfigV;

    open spec fn view(&self) -> CommandConfigV {
        CommandConfigV { cmd: self.cmd@, args: self.args.deep_view(), cwd: self.cwd.deep_view() }
    }
}

impl CommandConfig {
    /// A field-for-field copy with the same view.
    pub fn duplicate(&self) -> (r: CommandConfig)
        ensures
            r@ == self@,
    {
        let mut args: Vec<String> = Vec::new();
        let mut i: usize = 0;
        while i < self.args.len()
            invariant
                i <= self.args.len(),
                args@.len() == i,
                forall|j: int| 0 <= j < i ==> args@[j] == self.args@[j],
            decreases self.args.len() - i,
        {
            args.push(self.args[i].clone());
            i = i + 1;
        }
        let cwd = match &self.cwd {
            Option::None => Option::None,
            Option::Some(path) => Option::Some(path.clone()),
        };
        proof {
            assert(args@ =~= self.args@);
        }
        CommandConfig { cmd: self.cmd.clone(), args, cwd }
    }
}

/// Request to open the pane named `pane_id`, running `command` in it.
#[derive(Clone, Debug, PartialEq, Eq)]
pub struct OpenRequest {
    pub pane_id: String,
    pub command: CommandConfig,
}

pub struct OpenRequestV {
    pub pane_id: Seq<char>,
    pub command: CommandConfigV,
}

impl View for OpenRequest {
    type V = OpenRequestV;

    open spec fn view(&self) -> OpenRequestV {
        OpenRequestV { pane_id: self.pane_id@, command: self.command@ }
    }
}

/// Request to close the pane named `pane_id`.
#[derive(Clone, Debug, PartialEq, Eq)]
pub struct CloseRequest {
    pub pane_id: String,
}

pub struct CloseRequestV {
    pub pane_id: Seq<char>,
}

impl View for CloseRequest {
    type V = CloseRequestV;

    open spec fn view(&self) -> CloseRequestV {
        CloseRequestV { pane_id: self.pane_id@ }
    }
}

/// Request to open the pane if absent, close it if open.
#[derive(Clone, Debug, PartialEq, Eq)]
pub struct ToggleRequest {
    pub pane_id: String,
    pub command: CommandConfig,
}

pub struct ToggleRequestV {
    pub pane_id: Seq<char>,
    pub command: CommandConfigV,
}

impl View for ToggleRequest {
    type V = ToggleRequestV;

    open spec fn view(&self) -> ToggleRequestV {
        ToggleRequestV { pane_id: self.pane_id@, command: self.command@ }
    }
}

/// A command the coordinator asks the host facility to perform.  The host
/// answers asynchronously: a pane-opened notification carries back the
/// correlation context (which embeds `context_pane_id`), a termination is
/// reported by handle only.
#[derive(Clone, Debug, PartialEq, Eq)]
pub enum HostCommand {
    OpenCommandPane { config: CommandConfig, context_pane_id: String },
    CloseTerminalPane { zellij_pane_id: u32 },
}

pub enum HostCommandV {
    OpenCommandPane { config: CommandConfigV, context_pane_id: Seq<char> },
    CloseTerminalPane { zellij_pane_id: u32 },
}

impl View for HostCommand {
    type V = HostCommandV;

    open spec fn view(&self) -> HostCommandV {
        match self {
            HostCommand::OpenCommandPane { config, context_pane_id } => {
                HostCommandV::OpenCommandPane {
                    config: config@,
                    context_pane_id: context_pane_id@,
                }
            },
            HostCommand::CloseTerminalPane { zellij_pane_id } => {
                HostCommandV::CloseTerminalPane { zellij_pane_id: *zellij_pane_id }
            },
        }
    }
}

/// What a request makes the coordinator do, besides updating the registry:
/// either answer at once, or suspend the channel and dispatch a host command
/// (the answer then waits for the matching completion notification).
#[derive(Clone, Debug, PartialEq, Eq)]
pub enum Effect {
    Reply(Response),
    Dispatch(HostCommand),
}

pub enum EffectV {
    Reply(ResponseV),
    Dispatch(HostCommandV),
}

impl View for Effect {
    type V = EffectV;

    open spec fn view(&self) -> EffectV {
        match self {
            Effect::Reply(response) => EffectV::Reply(response@),
            Effect::Dispatch(command) => EffectV::Dispatch(command@),
        }
    }
}

} // verus!
