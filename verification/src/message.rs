//! The two commands and how each is decoded from the entries of a query.

use crate::query::{lookup, QueryMap};
use crate::text::text_of;
use vstd::prelude::*;

verus! {

/// A required key of a command that the query does not hold.
#[derive(Debug, Clone, Copy, PartialEq, Eq)]
pub enum MissingField {
    /// `workspace-id`
    WorkspaceId,
    /// `workspace-uid`
    WorkspaceUid,
    /// `devpod-pro-host`
    DevpodProHost,
}

impl MissingField {
    /// The key as it is written in a query.
    pub open spec fn wire_name(self) -> Seq<char> {
        match self {
            MissingField::WorkspaceId => "workspace-id"@,
            MissingField::WorkspaceUid => "workspace-uid"@,
            MissingField::DevpodProHost => "devpod-pro-host"@,
        }
    }

    /// The key as it is written in a query.
    pub fn name(&self) -> (name: &'static str)
        ensures
            name@ == self.wire_name(),
    {
        match self {
            MissingField::WorkspaceId => "workspace-id",
            MissingField::WorkspaceUid => "workspace-uid",
            MissingField::DevpodProHost => "devpod-pro-host",
        }
    }
}

/// A command that can be decoded from the entries of a query.
pub trait QueryMessage: Sized {
    /// Whether `entries` hold all that the command requires.
    spec fn accepts(entries: Map<Seq<char>, Seq<char>>) -> bool;

    /// Whether `message` is the command that `entries` decode to.
    spec fn decoded(entries: Map<Seq<char>, Seq<char>>, message: Self) -> bool;

    /// Decodes the command: it is given exactly where `entries` hold all
    /// that it requires.
    fn from_entries(entries: QueryMap) -> (outcome: Result<Self, MissingField>)
        ensures
            outcome is Ok <==> Self::accepts(entries@),
            outcome matches Ok(message) ==> Self::decoded(entries@, message),
    ;
}

/// The `open` command: which workspace to open, and with what. Each field
/// may be absent.
#[derive(Debug, PartialEq, Clone)]
pub struct OpenWorkspaceMsg {
    /// From the key `workspace`.
    pub workspace_id: Option<String>,
    /// From the key `provider`.
    pub provider_id: Option<String>,
    /// From the key `ide`.
    pub ide: Option<String>,
    /// From the key `source`.
    pub source: Option<String>,
}

/// Mathematical value of an [`OpenWorkspaceMsg`].
pub struct OpenWorkspaceView {
    pub workspace_id: Option<Seq<char>>,
    pub provider_id: Option<Seq<char>>,
    pub ide: Option<Seq<char>>,
    pub source: Option<Seq<char>>,
}

impl View for OpenWorkspaceMsg {
    type V = OpenWorkspaceView;

    open spec fn view(&self) -> OpenWorkspaceView {
        OpenWorkspaceView {
            workspace_id: text_of(self.workspace_id),
            provider_id: text_of(self.provider_id),
            ide: text_of(self.ide),
            source: text_of(self.source),
        }
    }
}

/// A copy of the value under `key`, if there is one.
fn value_of(entries: &QueryMap, key: &str) -> (value: Option<String>)
    ensures
        text_of(value) == lookup(entries@, key@),
{
    match entries.get(key) {
        Some(text) => Some(text.clone()),
        None => None,
    }
}

impl OpenWorkspaceMsg {
    /// The command with every field absent.
    pub fn empty() -> (message: OpenWorkspaceMsg)
        ensures
            message == (OpenWorkspaceMsg {
                workspace_id: None,
                provider_id: None,
                ide: None,
                source: None,
            }),
    {
        OpenWorkspaceMsg { workspace_id: None, provider_id: None, ide: None, source: None }
    }

    /// The command that names the workspace `id` and nothing else.
    pub fn with_id(id: String) -> (message: OpenWorkspaceMsg)
        ensures
            message == (OpenWorkspaceMsg {
                workspace_id: Some(id),
                provider_id: None,
                ide: None,
                source: None,
            }),
    {
        OpenWorkspaceMsg { workspace_id: Some(id), provider_id: None, ide: None, source: None }
    }

    /// The value of the command that `entries` decode to: each field is the
    /// value under its key, an empty one too, and absent where the key is;
    /// other keys count for nothing.
    pub open spec fn of_entries(entries: Map<Seq<char>, Seq<char>>) -> OpenWorkspaceView {
        OpenWorkspaceView {
            workspace_id: lookup(entries, "workspace"@),
            provider_id: lookup(entries, "provider"@),
            ide: lookup(entries, "ide"@),
            source: lookup(entries, "source"@),
        }
    }

    /// Decodes the command from the entries of a query. This never fails.
    pub fn from_query(entries: &QueryMap) -> (message: OpenWorkspaceMsg)
        ensures
            message@ == Self::of_entries(entries@),
    {
        OpenWorkspaceMsg {
            workspace_id: value_of(entries, "workspace"),
            provider_id: value_of(entries, "provider"),
            ide: value_of(entries, "ide"),
            source: value_of(entries, "source"),
        }
    }
}

/// Decoding an `open` command from no entries at all gives the command
/// with every field absent.
pub proof fn lemma_open_of_nothing()
    ensures
        OpenWorkspaceMsg::of_entries(Map::empty()) == (OpenWorkspaceView {
            workspace_id: None,
            provider_id: None,
            ide: None,
            source: None,
        }),
{
}

/// An `open` command takes no notice of keys other than its four: entries
/// added under any other key leave the decoded command as it was.
pub proof fn lemma_open_ignores_other_keys(
    entries: Map<Seq<char>, Seq<char>>,
    key: Seq<char>,
    value: Seq<char>,
)
    requires
        key != "workspace"@,
        key != "provider"@,
        key != "ide"@,
        key != "source"@,
    ensures
        OpenWorkspaceMsg::of_entries(entries.insert(key, value)) == OpenWorkspaceMsg::of_entries(
            entries,
        ),
{
}

impl QueryMessage for OpenWorkspaceMsg {
    open spec fn accepts(entries: Map<Seq<char>, Seq<char>>) -> bool {
        true
    }

    open spec fn decoded(entries: Map<Seq<char>, Seq<char>>, message: Self) -> bool {
        message@ == Self::of_entries(entries)
    }

    fn from_entries(entries: QueryMap) -> (outcome: Result<Self, MissingField>) {
        Ok(Self::from_query(&entries))
    }
}

/// The `import` command: the workspace to import, the host it comes from,
/// and whatever else the query said.
#[derive(Debug, PartialEq, Clone)]
pub struct ImportWorkspaceMsg {
    /// From the key `workspace-id`.
    pub workspace_id: String,
    /// From the key `workspace-uid`.
    pub workspace_uid: String,
    /// From the key `devpod-pro-host`.
    pub devpod_pro_host: String,
    /// Every other entry of the query.
    pub options: QueryMap,
}

/// Mathematical value of an [`ImportWorkspaceMsg`].
pub struct ImportWorkspaceView {
    pub workspace_id: Seq<char>,
    pub workspace_uid: Seq<char>,
    pub devpod_pro_host: Seq<char>,
    pub options: Map<Seq<char>, Seq<char>>,
}

impl View for ImportWorkspaceMsg {
    type V = ImportWorkspaceView;

    open spec fn view(&self) -> ImportWorkspaceView {
        ImportWorkspaceView {
            workspace_id: self.workspace_id@,
            workspace_uid: self.workspace_uid@,
            devpod_pro_host: self.devpod_pro_host@,
            options: self.options@,
        }
    }
}

/// The three required keys differ from one another.
pub proof fn lemma_required_keys_differ()
    ensures
        "workspace-id"@ != "workspace-uid"@,
        "workspace-id"@ != "devpod-pro-host"@,
        "workspace-uid"@ != "devpod-pro-host"@,
{
    reveal_strlit("workspace-id");
    reveal_strlit("workspace-uid");
    reveal_strlit("devpod-pro-host");
    assert("workspace-id"@.len() == 12);
    assert("workspace-uid"@.len() == 13);
    assert("devpod-pro-host"@.len() == 15);
}

impl ImportWorkspaceMsg {
    /// The keys that an `import` query must hold.
    pub open spec fn required_keys() -> Set<Seq<char>> {
        set!["workspace-id"@, "workspace-uid"@, "devpod-pro-host"@]
    }

    /// The first required key that `entries` lack, in the order
    /// `workspace-id`, `workspace-uid`, `devpod-pro-host`.
    pub open spec fn missing(entries: Map<Seq<char>, Seq<char>>) -> Option<MissingField> {
        if !entries.contains_key("workspace-id"@) {
            Some(MissingField::WorkspaceId)
        } else if !entries.contains_key("workspace-uid"@) {
            Some(MissingField::WorkspaceUid)
        } else if !entries.contains_key("devpod-pro-host"@) {
            Some(MissingField::DevpodProHost)
        } else {
            None
        }
    }

    /// The value of the command that `entries` decode to, where they hold
    /// the three required keys: the values under those keys, and as options
    /// all entries but those three.
    pub open spec fn of_entries(entries: Map<Seq<char>, Seq<char>>) -> ImportWorkspaceView {
        ImportWorkspaceView {
            workspace_id: entries["workspace-id"@],
            workspace_uid: entries["workspace-uid"@],
            devpod_pro_host: entries["devpod-pro-host"@],
            options: entries.remove_keys(Self::required_keys()),
        }
    }

    /// Decodes the command from the entries of a query.
    ///
    /// The three required keys are taken out first, in the order
    /// `workspace-id`, `workspace-uid`, `devpod-pro-host`; the first one
    /// that is not there ends the decoding and is reported. What is left
    /// becomes the options.
    pub fn from_query(entries: QueryMap) -> (outcome: Result<ImportWorkspaceMsg, MissingField>)
        ensures
            match outcome {
                Ok(message) => Self::missing(entries@) is None && message@ == Self::of_entries(
                    entries@,
                ),
                Err(field) => Self::missing(entries@) == Some(field),
            },
    {
        proof {
            lemma_required_keys_differ();
        }
        let mut options = entries;
        let workspace_id = match options.remove("workspace-id") {
            Some(value) => value,
            None => {
                return Err(MissingField::WorkspaceId);
            },
        };
        let workspace_uid = match options.remove("workspace-uid") {
            Some(value) => value,
            None => {
                return Err(MissingField::WorkspaceUid);
            },
        };
        let devpod_pro_host = match options.remove("devpod-pro-host") {
            Some(value) => value,
            None => {
                return Err(MissingField::DevpodProHost);
            },
        };
        proof {
            assert(options@ =~= entries@.remove_keys(Self::required_keys()));
        }
        Ok(ImportWorkspaceMsg { workspace_id, workspace_uid, devpod_pro_host, options })
    }
}

/// An `import` command is decoded exactly where the entries hold all three
/// required keys.
pub proof fn lemma_import_needs_required_keys(entries: Map<Seq<char>, Seq<char>>)
    ensures
        ImportWorkspaceMsg::missing(entries) is None <==> ImportWorkspaceMsg::required_keys().subset_of(
            entries.dom(),
        ),
        ImportWorkspaceMsg::missing(entries) matches Some(field) ==> !entries.contains_key(
            field.wire_name(),
        ) && ImportWorkspaceMsg::required_keys().contains(field.wire_name()),
{
    let required = ImportWorkspaceMsg::required_keys();
    assert(required.contains("workspace-id"@));
    assert(required.contains("workspace-uid"@));
    assert(required.contains("devpod-pro-host"@));
}

/// The options of a decoded `import` command are the entries under all
/// keys but the three required ones, each with its value.
pub proof fn lemma_import_options_are_the_rest(entries: Map<Seq<char>, Seq<char>>, key: Seq<char>)
    ensures
        ImportWorkspaceMsg::of_entries(entries).options.contains_key(key) <==> (
        entries.contains_key(key) && !ImportWorkspaceMsg::required_keys().contains(key)),
        ImportWorkspaceMsg::of_entries(entries).options.contains_key(key)
            ==> ImportWorkspaceMsg::of_entries(entries).options[key] == entries[key],
{
}

/// Entries made of the three required keys and of extra pairs under other
/// keys decode to the command with the required values and with exactly
/// the extra pairs as options.
pub proof fn lemma_import_keeps_the_extras(
    extras: Map<Seq<char>, Seq<char>>,
    workspace_id: Seq<char>,
    workspace_uid: Seq<char>,
    devpod_pro_host: Seq<char>,
)
    requires
        extras.dom().disjoint(ImportWorkspaceMsg::required_keys()),
    ensures
        ({
            let entries = extras.insert("workspace-id"@, workspace_id).insert(
                "workspace-uid"@,
                workspace_uid,
            ).insert("devpod-pro-host"@, devpod_pro_host);
            &&& ImportWorkspaceMsg::missing(entries) is None
            &&& ImportWorkspaceMsg::of_entries(entries) == (ImportWorkspaceView {
                workspace_id,
                workspace_uid,
                devpod_pro_host,
                options: extras,
            })
        }),
{
    lemma_required_keys_differ();
    let required = ImportWorkspaceMsg::required_keys();
    let entries = extras.insert("workspace-id"@, workspace_id).insert(
        "workspace-uid"@,
        workspace_uid,
    ).insert("devpod-pro-host"@, devpod_pro_host);
    assert(required.contains("workspace-id"@));
    assert(required.contains("workspace-uid"@));
    assert(required.contains("devpod-pro-host"@));
    assert forall|key: Seq<char>| extras.contains_key(key) implies !required.contains(key) by {
        if required.contains(key) {
            assert(extras.dom().contains(key));
        }
    }
    assert(entries.remove_keys(required) =~= extras);
}

impl QueryMessage for ImportWorkspaceMsg {
    open spec fn accepts(entries: Map<Seq<char>, Seq<char>>) -> bool {
        Self::missing(entries) is None
    }

    open spec fn decoded(entries: Map<Seq<char>, Seq<char>>, message: Self) -> bool {
        message@ == Self::of_entries(entries)
    }

    fn from_entries(entries: QueryMap) -> (outcome: Result<Self, MissingField>) {
        Self::from_query(entries)
    }
}

} // verus!
