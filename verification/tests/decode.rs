use custom_protocol::{
    CustomProtocol, ImportWorkspaceMsg, MissingField, OpenWorkspaceMsg, ParseError, QueryMap,
    QueryMessage, Request, UrlParser,
};

fn entries(pairs: &[(&str, &str)]) -> QueryMap {
    QueryMap::from_pairs(pairs.iter().map(|(k, v)| (k.to_string(), v.to_string())).collect())
}

fn request(host: &str, query: &str) -> Request {
    Request { host: host.to_string(), query: query.to_string() }
}

#[test]
fn custom_protocol_should_parse_full() {
    let url_str =
        "devpod://open?workspace=workspace&provider=provider&source=https://github.com/test123&ide=vscode";
    let request = UrlParser::parse(&url_str).unwrap();
    let got: OpenWorkspaceMsg = CustomProtocol::parse(&request).unwrap();

    assert_eq!(got.workspace_id, Some("workspace".to_string()));
    assert_eq!(got.provider_id, Some("provider".into()));
    assert_eq!(got.source, Some("https://github.com/test123".to_string()));
    assert_eq!(got.ide, Some("vscode".into()));

    let url_str =
        "devpod://import?workspace-id=workspace&workspace-uid=uid&devpod-pro-host=devpod.pro&other=other";
    let request = UrlParser::parse(&url_str).unwrap();

    let got: ImportWorkspaceMsg = CustomProtocol::parse(&request).unwrap();

    assert_eq!(got.workspace_id, "workspace".to_string());
    assert_eq!(got.workspace_uid, "uid".to_string());
    assert_eq!(got.devpod_pro_host, "devpod.pro".to_string());
    assert_eq!(got.options.get("other"), Some(&"other".to_string()));
}

#[test]
fn should_parse_workspace() {
    let url_str = "devpod://open?workspace=some-workspace";
    let request = UrlParser::parse(&url_str).unwrap();
    let got: OpenWorkspaceMsg = CustomProtocol::parse(&request).unwrap();

    assert_eq!(got.workspace_id, Some("some-workspace".to_string()));
    assert_eq!(got.provider_id, None);
    assert_eq!(got.source, None);
    assert_eq!(got.ide, None)
}

#[test]
#[should_panic]
fn should_fail_on_missing_workspace_id() {
    let url_str = "devpod://import?workspace-uid=uid&devpod-pro-host=devpod.pro&other=other";
    let request = UrlParser::parse(&url_str).unwrap();

    let got: Result<ImportWorkspaceMsg, ParseError> = CustomProtocol::parse(&request);
    got.unwrap();
}

#[test]
fn empty_and_with_id() {
    assert_eq!(
        OpenWorkspaceMsg::empty(),
        OpenWorkspaceMsg { workspace_id: None, provider_id: None, ide: None, source: None }
    );
    assert_eq!(
        OpenWorkspaceMsg::with_id("w1".to_string()),
        OpenWorkspaceMsg {
            workspace_id: Some("w1".to_string()),
            provider_id: None,
            ide: None,
            source: None
        }
    );
}

#[test]
fn open_decodes_the_empty_query_to_the_empty_command() {
    let got: OpenWorkspaceMsg = CustomProtocol::parse(&request("open", "")).unwrap();
    assert_eq!(got, OpenWorkspaceMsg::empty());
    assert_eq!(OpenWorkspaceMsg::from_query(&QueryMap::new()), OpenWorkspaceMsg::empty());
}

#[test]
fn open_keeps_an_empty_value_as_empty_text() {
    let got: OpenWorkspaceMsg = CustomProtocol::parse(&request("open", "workspace=&ide")).unwrap();
    assert_eq!(got.workspace_id, Some(String::new()));
    assert_eq!(got.ide, Some(String::new()));
    assert_eq!(got.provider_id, None);
    assert_eq!(got.source, None);
}

#[test]
fn open_ignores_unknown_keys() {
    let got: OpenWorkspaceMsg =
        CustomProtocol::parse(&request("open", "workspace=w&color=red&workspace_id=x")).unwrap();
    assert_eq!(got, OpenWorkspaceMsg::with_id("w".to_string()));
    let got = OpenWorkspaceMsg::from_query(&entries(&[("provider_id", "p"), ("IDE", "vim")]));
    assert_eq!(got, OpenWorkspaceMsg::empty());
}

#[test]
fn open_reads_each_field_from_its_key() {
    let got = OpenWorkspaceMsg::from_query(&entries(&[
        ("workspace", "w"),
        ("provider", "p"),
        ("ide", "vscode"),
        ("source", "https://github.com/x"),
    ]));
    assert_eq!(
        got,
        OpenWorkspaceMsg {
            workspace_id: Some("w".to_string()),
            provider_id: Some("p".to_string()),
            ide: Some("vscode".to_string()),
            source: Some("https://github.com/x".to_string()),
        }
    );
}

#[test]
fn open_fails_on_a_query_that_cannot_be_read() {
    let got: Result<OpenWorkspaceMsg, ParseError> =
        CustomProtocol::parse(&request("open", "workspace=%FF"));
    assert!(matches!(got, Err(ParseError::InvalidQuery(q)) if q == "workspace=%FF"));
}

#[test]
fn import_takes_required_keys_and_keeps_the_rest() {
    let got = ImportWorkspaceMsg::from_query(entries(&[
        ("other", "1"),
        ("workspace-id", "w"),
        ("more", ""),
        ("workspace-uid", "u"),
        ("devpod-pro-host", "h.example"),
    ]))
    .unwrap();
    assert_eq!(got.workspace_id, "w");
    assert_eq!(got.workspace_uid, "u");
    assert_eq!(got.devpod_pro_host, "h.example");
    let mut rest = got.options.pairs().clone();
    rest.sort();
    assert_eq!(
        rest,
        vec![("more".to_string(), String::new()), ("other".to_string(), "1".to_string())]
    );
    assert!(!got.options.contains_key("workspace-id"));
    assert!(!got.options.contains_key("workspace-uid"));
    assert!(!got.options.contains_key("devpod-pro-host"));
}

#[test]
fn import_without_extras_has_no_options() {
    let got = ImportWorkspaceMsg::from_query(entries(&[
        ("workspace-id", "w"),
        ("workspace-uid", "u"),
        ("devpod-pro-host", "h"),
    ]))
    .unwrap();
    assert!(got.options.pairs().is_empty());
}

#[test]
fn import_reports_the_first_missing_key() {
    let all = [("workspace-id", "w"), ("workspace-uid", "u"), ("devpod-pro-host", "h"), ("x", "y")];
    let without = |key: &str| {
        let kept: Vec<(&str, &str)> = all.iter().filter(|(k, _)| *k != key).cloned().collect();
        ImportWorkspaceMsg::from_query(entries(&kept)).map(|_| ())
    };
    assert_eq!(without("workspace-id"), Err(MissingField::WorkspaceId));
    assert_eq!(without("workspace-uid"), Err(MissingField::WorkspaceUid));
    assert_eq!(without("devpod-pro-host"), Err(MissingField::DevpodProHost));
    assert_eq!(without("x"), Ok(()));
    assert_eq!(
        ImportWorkspaceMsg::from_query(QueryMap::new()).map(|_| ()),
        Err(MissingField::WorkspaceId)
    );
    assert_eq!(
        ImportWorkspaceMsg::from_query(entries(&[("workspace-id", "w"), ("x", "y")])).map(|_| ()),
        Err(MissingField::WorkspaceUid)
    );
}

#[test]
fn missing_field_names_the_key_as_written() {
    assert_eq!(MissingField::WorkspaceId.name(), "workspace-id");
    assert_eq!(MissingField::WorkspaceUid.name(), "workspace-uid");
    assert_eq!(MissingField::DevpodProHost.name(), "devpod-pro-host");
}

#[test]
fn import_failure_is_an_invalid_query_with_the_query() {
    for query in [
        "",
        "workspace-uid=uid&devpod-pro-host=devpod.pro&other=other",
        "workspace-id=w&devpod-pro-host=devpod.pro",
        "workspace-id=w&workspace-uid=u",
        "workspace_id=w&workspace_uid=u&devpod_pro_host=h",
        "workspace-id=w&workspace-uid=u&devpod-pro-host=h&workspace-id=w2",
    ] {
        let got: Result<ImportWorkspaceMsg, ParseError> =
            CustomProtocol::parse(&request("import", query));
        match got {
            Err(ParseError::InvalidQuery(text)) => assert_eq!(text, query),
            other => panic!("unexpected outcome for {:?}: {:?}", query, other),
        }
    }
}

#[test]
fn import_accepts_empty_required_values() {
    let got: ImportWorkspaceMsg = CustomProtocol::parse(&request(
        "import",
        "workspace-id=&workspace-uid=&devpod-pro-host=",
    ))
    .unwrap();
    assert_eq!(got.workspace_id, "");
    assert_eq!(got.workspace_uid, "");
    assert_eq!(got.devpod_pro_host, "");
    assert!(got.options.pairs().is_empty());
}

#[test]
fn decode_maps_a_missing_key_to_the_query() {
    let got: Result<ImportWorkspaceMsg, ParseError> =
        CustomProtocol::decode(entries(&[("workspace-id", "w")]), "the query");
    assert!(matches!(got, Err(ParseError::InvalidQuery(q)) if q == "the query"));
    let got: Result<OpenWorkspaceMsg, ParseError> =
        CustomProtocol::decode(entries(&[("workspace", "w")]), "ignored");
    assert_eq!(got.unwrap(), OpenWorkspaceMsg::with_id("w".to_string()));
}

#[test]
fn from_entries_agrees_with_from_query() {
    let open = <OpenWorkspaceMsg as QueryMessage>::from_entries(entries(&[("ide", "vim")]));
    assert_eq!(open.unwrap().ide, Some("vim".to_string()));
    let import = <ImportWorkspaceMsg as QueryMessage>::from_entries(entries(&[("ide", "vim")]));
    assert_eq!(import.map(|_| ()), Err(MissingField::WorkspaceId));
}

#[test]
fn decoding_the_same_query_twice_gives_equal_commands() {
    let query = "workspace-id=w&workspace-uid=u&devpod-pro-host=h&a=1&b=2&c=3&d=4";
    let first: ImportWorkspaceMsg = CustomProtocol::parse(&request("import", query)).unwrap();
    let second: ImportWorkspaceMsg = CustomProtocol::parse(&request("import", query)).unwrap();
    assert_eq!(first, second);
    assert_eq!(
        first,
        ImportWorkspaceMsg {
            workspace_id: "w".to_string(),
            workspace_uid: "u".to_string(),
            devpod_pro_host: "h".to_string(),
            options: entries(&[("d", "4"), ("c", "3"), ("b", "2"), ("a", "1")]),
        }
    );
}

#[test]
fn parse_open_and_parse_import_decode_one_command_each() {
    let query = "workspace=w&workspace-id=i&workspace-uid=u&devpod-pro-host=h";
    let open = CustomProtocol::parse_open(&request("open", query)).unwrap();
    assert_eq!(open, OpenWorkspaceMsg::with_id("w".to_string()));
    let import = CustomProtocol::parse_import(&request("import", query)).unwrap();
    assert_eq!(import.workspace_id, "i");
    assert_eq!(import.options, entries(&[("workspace", "w")]));

    assert_eq!(
        CustomProtocol::parse_open(&request("open", "")).unwrap(),
        OpenWorkspaceMsg::empty()
    );
    assert!(matches!(
        CustomProtocol::parse_import(&request("import", "")),
        Err(ParseError::InvalidQuery(q)) if q.is_empty()
    ));
    assert!(matches!(
        CustomProtocol::parse_open(&request("open", "a=1&a=2")),
        Err(ParseError::InvalidQuery(q)) if q == "a=1&a=2"
    ));
}
