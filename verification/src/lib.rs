//! Deep-link activation protocol: a raw URL delivered by the operating
//! system is routed to a command, its query is decoded into a typed message,
//! and the message that the user interface is to receive is chosen.

pub mod error;
pub mod message;
pub mod protocol;
pub mod query;
pub mod router;
pub mod text;
pub mod ui;

pub use error::{ParseError, ParseErrorView};
pub use message::{ImportWorkspaceMsg, MissingField, OpenWorkspaceMsg, QueryMessage};
pub use query::QueryMap;
pub use router::{Command, ParsedUrl, Request, UrlParser};
pub use ui::{ImportHandler, OpenHandler, Platform, ShowToastMsg, TargetOs, ToastStatus, UiMessage};
pub use protocol::{CustomProtocol, APP_IDENTIFIER, APP_URL_SCHEME};
