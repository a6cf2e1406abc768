//! The entry point: what one activation leads to, from the raw URL to the
//! message for the user interface, and what follows from registering the
//! URL scheme.

use crate::error::{ParseError, ParseErrorView};
use crate::message::{
    ImportWorkspaceMsg, ImportWorkspaceView, OpenWorkspaceMsg, OpenWorkspaceView, QueryMessage,
};
use crate::query::{qs_entries, QueryMap};
use crate::router::{lemma_parse_gives_supported_only, Command, Request, RequestView, UrlParser};
use crate::ui::{
    sent_view, ImportHandler, OpenHandler, Platform, ShowToastMsg, ShowToastView, ToastStatus,
    UiMessage, UiMessageView,
};
use vstd::prelude::*;

verus! {

/// The identifier under which the application is known to the operating
/// system.
pub const APP_IDENTIFIER: &'static str = "sh.loft.devpod";

/// The URL scheme of activation links.
pub const APP_URL_SCHEME: &'static str = "devpod";

/// The handler of activation links. It starts unregistered and becomes
/// registered when the operating system has accepted the URL scheme.
#[derive(Debug)]
pub struct CustomProtocol {
    registered: bool,
}

/// The value of the outcome of decoding an `open` command.
pub open spec fn open_view(outcome: Result<OpenWorkspaceMsg, ParseError>) -> Result<
    OpenWorkspaceView,
    ParseErrorView,
> {
    match outcome {
        Ok(command) => Ok(command@),
        Err(error) => Err(error@),
    }
}

/// The value of the outcome of decoding an `import` command.
pub open spec fn import_view(outcome: Result<ImportWorkspaceMsg, ParseError>) -> Result<
    ImportWorkspaceView,
    ParseErrorView,
> {
    match outcome {
        Ok(command) => Ok(command@),
        Err(error) => Err(error@),
    }
}

/// On a platform that is told of failures every activation leads to
/// exactly one message: the decoded command, or the failure.
pub proof fn lemma_activation_always_answers(raw: Seq<char>, platform: Platform)
    requires
        platform.reports_failures,
    ensures
        CustomProtocol::activated(raw, platform) is Some,
{
    if UrlParser::parsed(raw) is Ok {
        lemma_parse_gives_supported_only(raw);
    }
}

/// On a platform that is not told of failures an activation leads to a
/// message only where a command was decoded, and to none otherwise.
pub proof fn lemma_failures_are_kept_back(raw: Seq<char>, platform: Platform)
    requires
        !platform.reports_failures,
    ensures
        match CustomProtocol::activated(raw, platform) {
            Some(UiMessageView::OpenWorkspace(_)) | Some(UiMessageView::ImportWorkspace(_)) | None => true,
            _ => false,
        },
{
}

impl CustomProtocol {
    /// Whether the URL scheme has been registered.
    pub closed spec fn is_registered(&self) -> bool {
        self.registered
    }

    /// The value of the failure that decoding `query` ends in.
    pub open spec fn invalid(query: Seq<char>) -> ParseErrorView {
        ParseErrorView::InvalidQuery(query)
    }

    /// The value of the message sent for a failure, if any is.
    pub open spec fn failure_sent(error: ParseErrorView, platform: Platform) -> Option<
        UiMessageView,
    > {
        if platform.reports_failures {
            Some(UiMessageView::CommandFailed(error))
        } else {
            None
        }
    }

    /// The value of what the query `query` decodes to as an `open` command:
    /// the command wherever the query can be read.
    pub open spec fn open_decoded(query: Seq<char>) -> Result<OpenWorkspaceView, ParseErrorView> {
        match qs_entries(query) {
            Some(entries) => Ok(OpenWorkspaceMsg::of_entries(entries)),
            None => Err(Self::invalid(query)),
        }
    }

    /// The value of what the query `query` decodes to as an `import`
    /// command: the command where the query can be read and holds the three
    /// required keys.
    pub open spec fn import_decoded(query: Seq<char>) -> Result<
        ImportWorkspaceView,
        ParseErrorView,
    > {
        match qs_entries(query) {
            Some(entries) => if ImportWorkspaceMsg::missing(entries) is None {
                Ok(ImportWorkspaceMsg::of_entries(entries))
            } else {
                Err(Self::invalid(query))
            },
            None => Err(Self::invalid(query)),
        }
    }

    /// The value of the message sent for an `open` request with this query.
    pub open spec fn open_sent(query: Seq<char>, platform: Platform) -> Option<UiMessageView> {
        match Self::open_decoded(query) {
            Ok(command) => Some(UiMessageView::OpenWorkspace(command)),
            Err(error) => Self::failure_sent(error, platform),
        }
    }

    /// The value of the message sent for an `import` request with this
    /// query.
    pub open spec fn import_sent(query: Seq<char>, platform: Platform) -> Option<UiMessageView> {
        match Self::import_decoded(query) {
            Ok(command) => Some(UiMessageView::ImportWorkspace(command)),
            Err(error) => Self::failure_sent(error, platform),
        }
    }

    /// The value of the message sent for a routed request, if any is.
    pub open spec fn dispatched(request: RequestView, platform: Platform) -> Option<
        UiMessageView,
    > {
        match Command::named(request.host) {
            Some(Command::Open) => Self::open_sent(request.query, platform),
            Some(Command::Import) => Self::import_sent(request.query, platform),
            None => None,
        }
    }

    /// The value of the message sent for the activation with the raw URL
    /// `raw`, if any is.
    pub open spec fn activated(raw: Seq<char>, platform: Platform) -> Option<UiMessageView> {
        match UrlParser::parsed(raw) {
            Ok(request) => Self::dispatched(request, platform),
            Err(error) => Self::failure_sent(error, platform),
        }
    }

    /// The warning shown where the URL scheme could not be registered.
    pub open spec fn registration_warning() -> ShowToastView {
        ShowToastView {
            title: "Custom protocol handling needs to be configured"@,
            message: "Either update-desktop-database or xdg-mime are missing. Please make sure they are available on your system"@,
            status: ToastStatus::Warning,
        }
    }

    /// The handler before the URL scheme is registered.
    pub fn init() -> (protocol: CustomProtocol)
        ensures
            !protocol.is_registered(),
    {
        CustomProtocol { registered: false }
    }

    /// Whether the URL scheme has been registered.
    pub fn registered(&self) -> (registered: bool)
        ensures
            registered == self.is_registered(),
    {
        self.registered
    }

    /// Takes note of how registering the URL scheme went, and gives the
    /// message that is to follow.
    ///
    /// The handler is registered afterwards exactly if the registration
    /// succeeded. A failure gives the warning toast on a platform that warns
    /// of it; everything else gives nothing.
    pub fn setup(&mut self, succeeded: bool, platform: &Platform) -> (sent: Option<UiMessage>)
        ensures
            final(self).is_registered() == succeeded,
            sent_view(sent) == if !succeeded && platform.warns_on_failed_registration {
                Some(UiMessageView::ShowToast(Self::registration_warning()))
            } else {
                None
            },
    {
        self.registered = succeeded;
        if !succeeded && platform.warns_on_failed_registration {
            let msg =
                "Either update-desktop-database or xdg-mime are missing. Please make sure they are available on your system";
            let show_toast_msg = ShowToastMsg::new(
                "Custom protocol handling needs to be configured".to_string(),
                msg.to_string(),
                ToastStatus::Warning,
            );
            Some(UiMessage::ShowToast(show_toast_msg))
        } else {
            None
        }
    }

    /// Decodes a command from the entries of the query `query`. A command
    /// whose required keys are not all there gives `InvalidQuery` with the
    /// query.
    pub fn decode<Msg: QueryMessage>(entries: QueryMap, query: &str) -> (outcome: Result<
        Msg,
        ParseError,
    >)
        ensures
            outcome is Ok <==> Msg::accepts(entries@),
            match outcome {
                Ok(message) => Msg::decoded(entries@, message),
                Err(error) => error@ == Self::invalid(query@),
            },
    {
        match Msg::from_entries(entries) {
            Ok(message) => Ok(message),
            Err(_) => Err(ParseError::InvalidQuery(query.to_string())),
        }
    }

    /// Decodes the command of a routed request from its query.
    ///
    /// The command is given exactly where the query can be read and holds
    /// all that the command requires; any failure is `InvalidQuery` with the
    /// query as it stands in the request. The empty query is read as no
    /// entries, so it decodes to whatever the command makes of none.
    pub fn parse<Msg: QueryMessage>(request: &Request) -> (outcome: Result<Msg, ParseError>)
        ensures
            outcome is Ok <==> (qs_entries(request.query@) matches Some(entries) && Msg::accepts(
                entries,
            )),
            match outcome {
                Ok(message) => Msg::decoded(qs_entries(request.query@)->Some_0, message),
                Err(error) => error@ == Self::invalid(request.query@),
            },
            request.query@.len() == 0 ==> qs_entries(request.query@) == Some(
                Map::<Seq<char>, Seq<char>>::empty(),
            ),
    {
        match QueryMap::parse(request.query.as_str()) {
            Ok(entries) => Self::decode(entries, request.query.as_str()),
            Err(error) => Err(error),
        }
    }

    /// Decodes the `open` command of a routed request.
    ///
    /// Every query that can be read gives a command; the empty query gives
    /// the command with every field absent.
    pub fn parse_open(request: &Request) -> (outcome: Result<OpenWorkspaceMsg, ParseError>)
        ensures
            open_view(outcome) == Self::open_decoded(request.query@),
            request.query@.len() == 0 ==> open_view(outcome) == Ok::<
                OpenWorkspaceView,
                ParseErrorView,
            >(
                OpenWorkspaceView { workspace_id: None, provider_id: None, ide: None, source: None },
            ),
    {
        Self::parse::<OpenWorkspaceMsg>(request)
    }

    /// Decodes the `import` command of a routed request.
    ///
    /// A command is given exactly where the query can be read and holds the
    /// three required keys; the empty query, which holds none, fails.
    pub fn parse_import(request: &Request) -> (outcome: Result<ImportWorkspaceMsg, ParseError>)
        ensures
            import_view(outcome) == Self::import_decoded(request.query@),
            request.query@.len() == 0 ==> import_view(outcome) == Err::<
                ImportWorkspaceView,
                ParseErrorView,
            >(Self::invalid(request.query@)),
    {
        Self::parse::<ImportWorkspaceMsg>(request)
    }

    /// Decodes and handles a routed request: the command named by its host
    /// is decoded from its query and handed to that command's handler. A
    /// host that names no command leads to nothing.
    pub fn dispatch(request: &Request, platform: &Platform) -> (sent: Option<UiMessage>)
        ensures
            sent_view(sent) == Self::dispatched(request@, *platform),
    {
        match Command::from_name(request.host.as_str()) {
            Some(Command::Open) => {
                let msg = Self::parse_open(request);
                OpenHandler::handle(msg, platform)
            },
            Some(Command::Import) => {
                let msg = Self::parse_import(request);
                ImportHandler::handle(msg, platform)
            },
            None => None,
        }
    }

    /// Runs one activation from the raw URL to the message for the user
    /// interface.
    ///
    /// A URL that cannot be routed gives the routing failure, without any
    /// decoding; a routed one gives what its command's handler gives. A
    /// failure of either kind is sent only on a platform that is told of
    /// failures.
    pub fn activate(url_scheme: &str, platform: &Platform) -> (sent: Option<UiMessage>)
        ensures
            sent_view(sent) == Self::activated(url_scheme@, *platform),
    {
        match UrlParser::parse(url_scheme) {
            Ok(request) => Self::dispatch(&request, platform),
            Err(err) => platform.report_failure(err),
        }
    }
}

} // verus!
