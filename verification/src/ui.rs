//! What the user interface is told: the messages, and the rule by which a
//! platform is told of failures or is not.

use crate::error::{ParseError, ParseErrorView};
use crate::message::{ImportWorkspaceMsg, ImportWorkspaceView, OpenWorkspaceMsg, OpenWorkspaceView};
use vstd::prelude::*;

verus! {

/// How a toast is to look.
#[derive(Debug, Clone, Copy, PartialEq, Eq)]
pub enum ToastStatus {
    Success,
    Error,
    Warning,
    Info,
    Loading,
}

/// A short notice for the user.
#[derive(Debug, Clone, PartialEq)]
pub struct ShowToastMsg {
    pub title: String,
    pub message: String,
    pub status: ToastStatus,
}

/// Mathematical value of a [`ShowToastMsg`].
pub struct ShowToastView {
    pub title: Seq<char>,
    pub message: Seq<char>,
    pub status: ToastStatus,
}

impl View for ShowToastMsg {
    type V = ShowToastView;

    open spec fn view(&self) -> ShowToastView {
        ShowToastView { title: self.title@, message: self.message@, status: self.status }
    }
}

impl ShowToastMsg {
    /// The toast with this title, text and look.
    pub fn new(title: String, message: String, status: ToastStatus) -> (toast: ShowToastMsg)
        ensures
            toast == (ShowToastMsg { title, message, status }),
    {
        ShowToastMsg { title, message, status }
    }
}

/// A message for the user interface.
#[derive(Debug, Clone)]
pub enum UiMessage {
    /// An `open` command was decoded.
    OpenWorkspace(OpenWorkspaceMsg),
    /// An `import` command was decoded.
    ImportWorkspace(ImportWorkspaceMsg),
    /// The activation could not be routed or decoded.
    CommandFailed(ParseError),
    /// A notice that belongs to no command.
    ShowToast(ShowToastMsg),
}

/// Mathematical value of a [`UiMessage`].
pub enum UiMessageView {
    OpenWorkspace(OpenWorkspaceView),
    ImportWorkspace(ImportWorkspaceView),
    CommandFailed(ParseErrorView),
    ShowToast(ShowToastView),
}

impl View for UiMessage {
    type V = UiMessageView;

    open spec fn view(&self) -> UiMessageView {
        match self {
            UiMessage::OpenWorkspace(message) => UiMessageView::OpenWorkspace(message@),
            UiMessage::ImportWorkspace(message) => UiMessageView::ImportWorkspace(message@),
            UiMessage::CommandFailed(error) => UiMessageView::CommandFailed(error@),
            UiMessage::ShowToast(toast) => UiMessageView::ShowToast(toast@),
        }
    }
}

/// The value of a message that may be absent.
pub open spec fn sent_view(message: Option<UiMessage>) -> Option<UiMessageView> {
    match message {
        Some(m) => Some(m@),
        None => None,
    }
}

/// The operating systems that the rules tell apart.
#[derive(Debug, Clone, Copy, PartialEq, Eq)]
pub enum TargetOs {
    Linux,
    MacOs,
    Windows,
    Other,
}

/// What the platform a process runs on can be told.
#[derive(Debug, Clone, Copy, PartialEq, Eq)]
pub struct Platform {
    /// Whether the user interface is told of an activation that failed.
    pub reports_failures: bool,
    /// Whether the user is warned when the URL scheme could not be
    /// registered.
    pub warns_on_failed_registration: bool,
}

impl Platform {
    /// The rules for `os`: failures are reported everywhere but on Windows,
    /// and a failed registration is warned of on Linux only.
    pub fn of(os: TargetOs) -> (platform: Platform)
        ensures
            platform.reports_failures == (os != TargetOs::Windows),
            platform.warns_on_failed_registration == (os == TargetOs::Linux),
    {
        match os {
            TargetOs::Linux => Platform {
                reports_failures: true,
                warns_on_failed_registration: true,
            },
            TargetOs::MacOs => Platform {
                reports_failures: true,
                warns_on_failed_registration: false,
            },
            TargetOs::Windows => Platform {
                reports_failures: false,
                warns_on_failed_registration: false,
            },
            TargetOs::Other => Platform {
                reports_failures: true,
                warns_on_failed_registration: false,
            },
        }
    }

    /// What is sent for a failed activation: `CommandFailed` with the
    /// error where the platform reports failures, nothing where it does
    /// not.
    pub open spec fn failure_notice(self, error: ParseError) -> Option<UiMessage> {
        if self.reports_failures {
            Some(UiMessage::CommandFailed(error))
        } else {
            None
        }
    }

    /// The message for an activation that failed with `error`, if this
    /// platform is told of failures.
    pub fn report_failure(&self, error: ParseError) -> (sent: Option<UiMessage>)
        ensures
            sent == self.failure_notice(error),
    {
        if self.reports_failures {
            Some(UiMessage::CommandFailed(error))
        } else {
            None
        }
    }
}

/// Turns the outcome of decoding an `open` command into the message to
/// send.
pub struct OpenHandler {}

impl OpenHandler {
    /// The message for a decoded command.
    pub fn handle_ok(msg: OpenWorkspaceMsg) -> (sent: UiMessage)
        ensures
            sent == UiMessage::OpenWorkspace(msg),
    {
        UiMessage::OpenWorkspace(msg)
    }

    /// The message for a failed decoding, if the platform is told of it.
    pub fn handle_error(err: ParseError, platform: &Platform) -> (sent: Option<UiMessage>)
        ensures
            sent == platform.failure_notice(err),
    {
        platform.report_failure(err)
    }

    /// The one message to send for `msg`: the command itself, unchanged,
    /// or the failure where the platform is told of failures.
    pub fn handle(msg: Result<OpenWorkspaceMsg, ParseError>, platform: &Platform) -> (sent: Option<
        UiMessage,
    >)
        ensures
            sent == match msg {
                Ok(command) => Some(UiMessage::OpenWorkspace(command)),
                Err(error) => platform.failure_notice(error),
            },
    {
        match msg {
            Ok(msg) => Some(Self::handle_ok(msg)),
            Err(err) => Self::handle_error(err, platform),
        }
    }
}

/// Turns the outcome of decoding an `import` command into the message to
/// send.
pub struct ImportHandler {}

impl ImportHandler {
    /// The message for a decoded command.
    pub fn handle_ok(msg: ImportWorkspaceMsg) -> (sent: UiMessage)
        ensures
            sent == UiMessage::ImportWorkspace(msg),
    {
        UiMessage::ImportWorkspace(msg)
    }

    /// The message for a failed decoding, if the platform is told of it.
    pub fn handle_error(err: ParseError, platform: &Platform) -> (sent: Option<UiMessage>)
        ensures
            sent == platform.failure_notice(err),
    {
        platform.report_failure(err)
    }

    /// The one message to send for `msg`: the command itself, unchanged,
    /// or the failure where the platform is told of failures.
    pub fn handle(msg: Result<ImportWorkspaceMsg, ParseError>, platform: &Platform) -> (sent:
        Option<UiMessage>)
        ensures
            sent == match msg {
                Ok(command) => Some(UiMessage::ImportWorkspace(command)),
                Err(error) => platform.failure_notice(error),
            },
    {
        match msg {
            Ok(msg) => Some(Self::handle_ok(msg)),
            Err(err) => Self::handle_error(err, platform),
        }
    }
}

} // verus!
