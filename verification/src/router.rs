//! Routing: from the raw URL of an activation to the command it names and
//! the query that goes with it.

use crate::error::{ParseError, ParseErrorView};
use crate::text::{str_eq, text_of};
use url::Url;
use vstd::prelude::*;

verus! {

/// Whether `Url::parse` accepts `raw` as an absolute URL.
pub uninterp spec fn url_accepted(raw: Seq<char>) -> bool;

/// What `Url::host_str` reports of the record that `Url::parse` makes of
/// `raw`: the host segment, where the URL has one.
pub uninterp spec fn url_host(raw: Seq<char>) -> Option<Seq<char>>;

/// What `Url::query` reports of the record that `Url::parse` makes of `raw`:
/// the text between `?` and the fragment, where the URL has a `?`.
pub uninterp spec fn url_query(raw: Seq<char>) -> Option<Seq<char>>;

/// The commands that an activation can ask for.
#[derive(Debug, Clone, Copy, PartialEq, Eq)]
pub enum Command {
    /// `open`
    Open,
    /// `import`
    Import,
}

impl Command {
    /// The name of the command as a URL spells it.
    pub open spec fn wire_name(self) -> Seq<char> {
        match self {
            Command::Open => "open"@,
            Command::Import => "import"@,
        }
    }

    /// The command that `name` spells, if it spells one. The spelling is
    /// exact: letter case counts.
    pub open spec fn named(name: Seq<char>) -> Option<Command> {
        if name == "open"@ {
            Some(Command::Open)
        } else if name == "import"@ {
            Some(Command::Import)
        } else {
            None
        }
    }

    /// The name of the command as a URL spells it.
    pub fn name(&self) -> (name: &'static str)
        ensures
            name@ == self.wire_name(),
    {
        match self {
            Command::Open => "open",
            Command::Import => "import",
        }
    }

    /// The command that `name` spells, if it spells one.
    pub fn from_name(name: &str) -> (command: Option<Command>)
        ensures
            command == Self::named(name@),
    {
        if str_eq(name, "open") {
            Some(Command::Open)
        } else if str_eq(name, "import") {
            Some(Command::Import)
        } else {
            None
        }
    }
}

/// The two components of a URL that routing reads.
#[derive(Debug, Clone, PartialEq)]
pub struct ParsedUrl {
    /// The host segment, where the URL has one.
    pub host: Option<String>,
    /// The query, where the URL has one.
    pub query: Option<String>,
}

/// Mathematical value of a [`ParsedUrl`].
pub struct ParsedUrlView {
    pub host: Option<Seq<char>>,
    pub query: Option<Seq<char>>,
}

impl View for ParsedUrl {
    type V = ParsedUrlView;

    open spec fn view(&self) -> ParsedUrlView {
        ParsedUrlView { host: text_of(self.host), query: text_of(self.query) }
    }
}

/// A routed activation: the command and the query to decode for it.
#[derive(Debug, Clone, PartialEq)]
pub struct Request {
    /// The command name, as the URL's host segment gave it.
    pub host: String,
    /// The query; empty where the URL has none.
    pub query: String,
}

/// Mathematical value of a [`Request`].
pub struct RequestView {
    pub host: Seq<char>,
    pub query: Seq<char>,
}

impl View for Request {
    type V = RequestView;

    open spec fn view(&self) -> RequestView {
        RequestView { host: self.host@, query: self.query@ }
    }
}

/// The value of a routing outcome.
pub open spec fn routed_view(outcome: Result<Request, ParseError>) -> Result<
    RequestView,
    ParseErrorView,
> {
    match outcome {
        Ok(request) => Ok(request@),
        Err(error) => Err(error@),
    }
}

/// The name that stands for a missing host is itself no supported
/// command.
pub proof fn lemma_no_host_is_unsupported()
    ensures
        !UrlParser::allowed(UrlParser::no_host()),
{
    reveal_strlit("no host");
    reveal_strlit("open");
    reveal_strlit("import");
    assert("no host"@.len() == 7);
    assert("open"@.len() == 4);
    assert("import"@.len() == 6);
}

/// A raw text that is a URL with a supported command is routed to the
/// request with exactly that URL's host segment and query, the query empty
/// where the URL has none.
pub proof fn lemma_parse_accepts(raw: Seq<char>)
    requires
        url_accepted(raw),
        url_host(raw) matches Some(host) && UrlParser::allowed(host),
    ensures
        UrlParser::parsed(raw) == Ok::<RequestView, ParseErrorView>(
            RequestView {
                host: url_host(raw)->Some_0,
                query: match url_query(raw) {
                    Some(query) => query,
                    None => Seq::empty(),
                },
            },
        ),
{
}

/// Whatever is routed to a request is a URL with a host segment that names
/// a supported command, and the request carries that host segment.
pub proof fn lemma_parse_gives_supported_only(raw: Seq<char>)
    requires
        UrlParser::parsed(raw) is Ok,
    ensures
        url_accepted(raw),
        url_host(raw) == Some(UrlParser::parsed(raw)->Ok_0.host),
        UrlParser::allowed(UrlParser::parsed(raw)->Ok_0.host),
{
    lemma_no_host_is_unsupported();
}

/// A raw text that is no URL is refused as `InvalidQuery` with the text
/// itself.
pub proof fn lemma_parse_refuses_invalid(raw: Seq<char>)
    requires
        !url_accepted(raw),
    ensures
        UrlParser::parsed(raw) == Err::<RequestView, ParseErrorView>(
            ParseErrorView::InvalidQuery(raw),
        ),
{
}

/// A URL whose host segment names no supported command is refused as
/// `UnsupportedHost` with that name, and one without a host segment as
/// `UnsupportedHost` with `no host`.
pub proof fn lemma_parse_refuses_unsupported(raw: Seq<char>)
    requires
        url_accepted(raw),
        url_host(raw) matches Some(host) ==> !UrlParser::allowed(host),
    ensures
        UrlParser::parsed(raw) == Err::<RequestView, ParseErrorView>(
            ParseErrorView::UnsupportedHost(
                match url_host(raw) {
                    Some(host) => host,
                    None => UrlParser::no_host(),
                },
            ),
        ),
{
    lemma_no_host_is_unsupported();
}

/// Calls `Url::parse` and copies out what `Url::host_str` and `Url::query`
/// report of the record; `None` where `Url::parse` reports an error.
///
/// Taken on trust: the call succeeds exactly where [`url_accepted`] says so,
/// and the two components are those that [`url_host`] and [`url_query`]
/// name.
#[verifier::external_body]
fn read_url(raw: &str) -> (outcome: Option<ParsedUrl>)
    ensures
        outcome is Some <==> url_accepted(raw@),
        outcome matches Some(parsed) ==> parsed@.host == url_host(raw@) && parsed@.query
            == url_query(raw@),
{
    let url = Url::parse(raw).ok()?;
    Some(ParsedUrl { host: url.host_str().map(str::to_string), query: url.query().map(str::to_string) })
}

/// The router: it reads a raw URL and tells which command it asks for.
pub struct UrlParser {}

impl UrlParser {
    /// The host that stands for a URL without a host segment.
    pub open spec fn no_host() -> Seq<char> {
        "no host"@
    }

    /// Whether `host` names a supported command: `open` or `import`, in
    /// exactly this spelling.
    pub open spec fn allowed(host: Seq<char>) -> bool {
        Command::named(host) is Some
    }

    /// The command name of a URL: its host segment, and `no host` where it
    /// has none.
    pub open spec fn host_name(url: ParsedUrlView) -> Seq<char> {
        match url.host {
            Some(host) => host,
            None => Self::no_host(),
        }
    }

    /// The query of a URL; empty where it has none.
    pub open spec fn query_text(url: ParsedUrlView) -> Seq<char> {
        match url.query {
            Some(query) => query,
            None => Seq::empty(),
        }
    }

    /// The request a URL is routed to: its command name and query where the
    /// command is supported, `UnsupportedHost` with the name where it is not.
    pub open spec fn routed(url: ParsedUrlView) -> Result<RequestView, ParseErrorView> {
        if Self::allowed(Self::host_name(url)) {
            Ok(RequestView { host: Self::host_name(url), query: Self::query_text(url) })
        } else {
            Err(ParseErrorView::UnsupportedHost(Self::host_name(url)))
        }
    }

    /// What [`UrlParser::parse`] makes of the raw URL `raw`.
    pub open spec fn parsed(raw: Seq<char>) -> Result<RequestView, ParseErrorView> {
        if url_accepted(raw) {
            Self::routed(ParsedUrlView { host: url_host(raw), query: url_query(raw) })
        } else {
            Err(ParseErrorView::InvalidQuery(raw))
        }
    }

    /// The command name of `url`.
    pub fn get_host(url: &ParsedUrl) -> (host: String)
        ensures
            host@ == Self::host_name(url@),
    {
        match &url.host {
            Some(host) => host.clone(),
            None => "no host".to_string(),
        }
    }

    /// Reads the raw URL; one that is no absolute URL gives `InvalidQuery`
    /// with the raw text.
    pub fn parse_raw_url(url_scheme: &str) -> (outcome: Result<ParsedUrl, ParseError>)
        ensures
            match outcome {
                Ok(url) => url_accepted(url_scheme@) && url@.host == url_host(url_scheme@)
                    && url@.query == url_query(url_scheme@),
                Err(error) => !url_accepted(url_scheme@) && error@ == ParseErrorView::InvalidQuery(
                    url_scheme@,
                ),
            },
    {
        match read_url(url_scheme) {
            Some(url) => Ok(url),
            None => Err(ParseError::InvalidQuery(url_scheme.to_string())),
        }
    }

    /// Whether `host_str` names a supported command.
    pub fn is_allowed_method(host_str: &str) -> (allowed: bool)
        ensures
            allowed == Self::allowed(host_str@),
    {
        Command::from_name(host_str).is_some()
    }

    /// The query of `url`.
    pub fn parse_query(url: &ParsedUrl) -> (query: String)
        ensures
            query@ == Self::query_text(url@),
    {
        match &url.query {
            Some(query) => query.clone(),
            None => String::new(),
        }
    }

    /// Routes a URL that has been read: the request for its command, or
    /// `UnsupportedHost` where the command is none of the supported ones.
    pub fn route(url: &ParsedUrl) -> (outcome: Result<Request, ParseError>)
        ensures
            routed_view(outcome) == Self::routed(url@),
    {
        let host_str = Self::get_host(url);
        if !Self::is_allowed_method(host_str.as_str()) {
            return Err(ParseError::UnsupportedHost(host_str));
        }
        Ok(Request { host: host_str, query: Self::parse_query(url) })
    }

    /// Reads and routes the raw URL of an activation.
    ///
    /// A text that is no absolute URL gives `InvalidQuery` with that text; a
    /// URL whose host segment is missing or names no supported command gives
    /// `UnsupportedHost` with the name; any other gives the request, with
    /// the host segment as the command and the text after `?` as the query,
    /// empty where there is none.
    pub fn parse(url_scheme: &str) -> (outcome: Result<Request, ParseError>)
        ensures
            routed_view(outcome) == Self::parsed(url_scheme@),
    {
        match Self::parse_raw_url(url_scheme) {
            Ok(url) => Self::route(&url),
            Err(error) => Err(error),
        }
    }
}

} // verus!
