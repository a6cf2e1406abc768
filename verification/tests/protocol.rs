use custom_protocol::{
    CustomProtocol, ImportHandler, ImportWorkspaceMsg, OpenHandler, OpenWorkspaceMsg, ParseError,
    Platform, QueryMap, Request, ShowToastMsg, TargetOs, ToastStatus, UiMessage, APP_IDENTIFIER,
    APP_URL_SCHEME,
};

fn everywhere() -> [Platform; 4] {
    [
        Platform::of(TargetOs::Linux),
        Platform::of(TargetOs::MacOs),
        Platform::of(TargetOs::Windows),
        Platform::of(TargetOs::Other),
    ]
}

#[test]
fn identifiers_are_the_registered_ones() {
    assert_eq!(APP_IDENTIFIER, "sh.loft.devpod");
    assert_eq!(APP_URL_SCHEME, "devpod");
}

#[test]
fn platform_rules_by_operating_system() {
    let linux = Platform::of(TargetOs::Linux);
    assert!(linux.reports_failures && linux.warns_on_failed_registration);
    let mac = Platform::of(TargetOs::MacOs);
    assert!(mac.reports_failures && !mac.warns_on_failed_registration);
    let windows = Platform::of(TargetOs::Windows);
    assert!(!windows.reports_failures && !windows.warns_on_failed_registration);
    let other = Platform::of(TargetOs::Other);
    assert!(other.reports_failures && !other.warns_on_failed_registration);
}

#[test]
fn open_handler_forwards_the_command_unchanged() {
    for platform in everywhere() {
        let msg = OpenWorkspaceMsg::with_id("w".to_string());
        match OpenHandler::handle(Ok(msg.clone()), &platform) {
            Some(UiMessage::OpenWorkspace(sent)) => assert_eq!(sent, msg),
            other => panic!("unexpected message: {:?}", other),
        }
    }
}

#[test]
fn import_handler_forwards_the_command_unchanged() {
    for platform in everywhere() {
        let msg = ImportWorkspaceMsg {
            workspace_id: "w".to_string(),
            workspace_uid: "u".to_string(),
            devpod_pro_host: "h".to_string(),
            options: QueryMap::from_pairs(vec![("k".to_string(), "v".to_string())]),
        };
        match ImportHandler::handle(Ok(msg), &platform) {
            Some(UiMessage::ImportWorkspace(sent)) => {
                assert_eq!(sent.workspace_id, "w");
                assert_eq!(sent.workspace_uid, "u");
                assert_eq!(sent.devpod_pro_host, "h");
                assert_eq!(sent.options.pairs(), &vec![("k".to_string(), "v".to_string())]);
            }
            other => panic!("unexpected message: {:?}", other),
        }
    }
}

#[test]
fn failures_are_reported_except_on_windows() {
    for os in [TargetOs::Linux, TargetOs::MacOs, TargetOs::Other] {
        let platform = Platform::of(os);
        let sent = OpenHandler::handle(Err(ParseError::InvalidQuery("q".to_string())), &platform);
        assert!(matches!(sent, Some(UiMessage::CommandFailed(ParseError::InvalidQuery(q))) if q == "q"));
        let sent =
            ImportHandler::handle(Err(ParseError::UnsupportedHost("h".to_string())), &platform);
        assert!(matches!(sent, Some(UiMessage::CommandFailed(ParseError::UnsupportedHost(h))) if h == "h"));
        let sent = platform.report_failure(ParseError::InvalidQuery("r".to_string()));
        assert!(matches!(sent, Some(UiMessage::CommandFailed(ParseError::InvalidQuery(r))) if r == "r"));
    }
    let windows = Platform::of(TargetOs::Windows);
    assert!(OpenHandler::handle(Err(ParseError::InvalidQuery("q".to_string())), &windows).is_none());
    assert!(ImportHandler::handle(Err(ParseError::InvalidQuery("q".to_string())), &windows).is_none());
    assert!(OpenHandler::handle_error(ParseError::InvalidQuery("q".to_string()), &windows).is_none());
    assert!(ImportHandler::handle_error(ParseError::InvalidQuery("q".to_string()), &windows).is_none());
    assert!(windows.report_failure(ParseError::InvalidQuery("q".to_string())).is_none());
}

#[test]
fn handle_ok_wraps_the_command() {
    let sent = OpenHandler::handle_ok(OpenWorkspaceMsg::empty());
    assert!(matches!(sent, UiMessage::OpenWorkspace(m) if m == OpenWorkspaceMsg::empty()));
}

#[test]
fn setup_records_the_registration_and_warns_on_linux() {
    let mut protocol = CustomProtocol::init();
    assert!(!protocol.registered());

    let sent = protocol.setup(false, &Platform::of(TargetOs::Linux));
    assert!(!protocol.registered());
    match sent {
        Some(UiMessage::ShowToast(toast)) => assert_eq!(
            toast,
            ShowToastMsg::new(
                "Custom protocol handling needs to be configured".to_string(),
                "Either update-desktop-database or xdg-mime are missing. Please make sure they are available on your system".to_string(),
                ToastStatus::Warning,
            )
        ),
        other => panic!("unexpected message: {:?}", other),
    }

    for os in [TargetOs::MacOs, TargetOs::Windows, TargetOs::Other] {
        let mut protocol = CustomProtocol::init();
        assert!(protocol.setup(false, &Platform::of(os)).is_none());
        assert!(!protocol.registered());
    }
    for platform in everywhere() {
        let mut protocol = CustomProtocol::init();
        assert!(protocol.setup(true, &platform).is_none());
        assert!(protocol.registered());
    }
}

#[test]
fn activation_with_open_and_one_key() {
    let linux = Platform::of(TargetOs::Linux);
    match CustomProtocol::activate("devpod://open?workspace=workspace", &linux) {
        Some(UiMessage::OpenWorkspace(msg)) => {
            assert_eq!(msg, OpenWorkspaceMsg::with_id("workspace".to_string()))
        }
        other => panic!("unexpected message: {:?}", other),
    }
}

#[test]
fn activation_with_import_and_no_query_fails() {
    let linux = Platform::of(TargetOs::Linux);
    match CustomProtocol::activate("devpod://import", &linux) {
        Some(UiMessage::CommandFailed(ParseError::InvalidQuery(query))) => assert_eq!(query, ""),
        other => panic!("unexpected message: {:?}", other),
    }
    assert!(CustomProtocol::activate("devpod://import", &Platform::of(TargetOs::Windows)).is_none());
}

#[test]
fn activation_with_open_and_all_keys() {
    let mac = Platform::of(TargetOs::MacOs);
    let url = "devpod://open?workspace=w&provider=p&ide=vscode&source=https://github.com/x";
    match CustomProtocol::activate(url, &mac) {
        Some(UiMessage::OpenWorkspace(msg)) => assert_eq!(
            msg,
            OpenWorkspaceMsg {
                workspace_id: Some("w".to_string()),
                provider_id: Some("p".to_string()),
                ide: Some("vscode".to_string()),
                source: Some("https://github.com/x".to_string()),
            }
        ),
        other => panic!("unexpected message: {:?}", other),
    }
}

#[test]
fn activation_with_import_and_an_extra_key() {
    let windows = Platform::of(TargetOs::Windows);
    let url = "devpod://import?workspace-id=w&workspace-uid=u&devpod-pro-host=h.example&other=1";
    match CustomProtocol::activate(url, &windows) {
        Some(UiMessage::ImportWorkspace(msg)) => {
            assert_eq!(msg.workspace_id, "w");
            assert_eq!(msg.workspace_uid, "u");
            assert_eq!(msg.devpod_pro_host, "h.example");
            assert_eq!(msg.options.pairs(), &vec![("other".to_string(), "1".to_string())]);
        }
        other => panic!("unexpected message: {:?}", other),
    }
}

#[test]
fn activation_with_an_unknown_command() {
    let linux = Platform::of(TargetOs::Linux);
    match CustomProtocol::activate("devpod://something", &linux) {
        Some(UiMessage::CommandFailed(ParseError::UnsupportedHost(name))) => {
            assert_eq!(name, "something")
        }
        other => panic!("unexpected message: {:?}", other),
    }
    assert!(CustomProtocol::activate("devpod://something", &Platform::of(TargetOs::Windows))
        .is_none());
}

#[test]
fn activation_with_text_that_is_no_url() {
    let linux = Platform::of(TargetOs::Linux);
    match CustomProtocol::activate("not-a-url", &linux) {
        Some(UiMessage::CommandFailed(ParseError::InvalidQuery(raw))) => {
            assert_eq!(raw, "not-a-url")
        }
        other => panic!("unexpected message: {:?}", other),
    }
    assert!(CustomProtocol::activate("not-a-url", &Platform::of(TargetOs::Windows)).is_none());
}

#[test]
fn dispatch_goes_by_the_host() {
    let linux = Platform::of(TargetOs::Linux);
    let open = Request { host: "open".to_string(), query: "ide=vim".to_string() };
    assert!(matches!(
        CustomProtocol::dispatch(&open, &linux),
        Some(UiMessage::OpenWorkspace(m)) if m.ide == Some("vim".to_string())
    ));
    let import = Request { host: "import".to_string(), query: "ide=vim".to_string() };
    assert!(matches!(
        CustomProtocol::dispatch(&import, &linux),
        Some(UiMessage::CommandFailed(ParseError::InvalidQuery(q))) if q == "ide=vim"
    ));
    let other = Request { host: "close".to_string(), query: "ide=vim".to_string() };
    assert!(CustomProtocol::dispatch(&other, &linux).is_none());
}

#[test]
fn import_handle_ok_wraps_the_command() {
    let msg = ImportWorkspaceMsg {
        workspace_id: "w".to_string(),
        workspace_uid: "u".to_string(),
        devpod_pro_host: "h".to_string(),
        options: QueryMap::new(),
    };
    assert!(matches!(
        ImportHandler::handle_ok(msg.clone()),
        UiMessage::ImportWorkspace(sent) if sent == msg
    ));
}
