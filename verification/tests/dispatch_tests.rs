use browser_remote::browser::BrowserController;
use browser_remote::dispatch::{
    begin, finish, parse_command, respond, Command, CommandOutput, DispatchStep, DriverAction,
    DriverOutcome, MCPRequest, RequestParams,
};
use browser_remote::errors::CommandError;
use browser_remote::types::{ElementInfo, SelectionAction};

fn element(i: usize) -> ElementInfo {
    ElementInfo {
        index: i,
        tag_name: "BUTTON".to_string(),
        text: format!("item {}", i),
        classes: format!("class-{}", i),
        id: format!("id-{}", i),
    }
}

fn catalog(n: usize) -> Vec<ElementInfo> {
    (0..n).map(element).collect()
}

fn empty_params() -> RequestParams {
    RequestParams {
        url: None,
        selector: None,
        text: None,
        key: None,
        direction: None,
        script: None,
        webdriver_url: None,
        count: None,
        index: None,
        timeout: None,
    }
}

fn request(method: &str, params: Option<RequestParams>, id: u64) -> MCPRequest {
    MCPRequest {
        jsonrpc: "2.0".to_string(),
        method: method.to_string(),
        params,
        id,
    }
}

fn connect(ctrl: &mut BrowserController, url: &str) {
    let cmd = Command::Connect {
        webdriver_url: None,
        timeout: None,
    };
    match begin(ctrl, &cmd) {
        DispatchStep::Driver(DriverAction::ConnectBrowser { .. }) => {}
        other => panic!("expected a connect action, got {:?}", other),
    }
    let out = finish(
        ctrl,
        cmd,
        DriverOutcome::ConnectedAt {
            url: url.to_string(),
        },
    );
    assert_eq!(
        out,
        Ok(CommandOutput::Connected {
            url: url.to_string()
        })
    );
}

fn enter_mode(ctrl: &mut BrowserController, elements: Vec<ElementInfo>) -> Vec<ElementInfo> {
    match begin(ctrl, &Command::EnterSelectionMode) {
        DispatchStep::Driver(DriverAction::QueryElements) => {}
        other => panic!("expected an element query, got {:?}", other),
    }
    match finish(
        ctrl,
        Command::EnterSelectionMode,
        DriverOutcome::Elements { elements },
    ) {
        Ok(CommandOutput::Elements { elements }) => elements,
        other => panic!("expected elements, got {:?}", other),
    }
}

fn navigate(
    ctrl: &mut BrowserController,
    direction: Option<SelectionAction>,
    count: u32,
) -> Result<usize, CommandError> {
    match begin(ctrl, &Command::NavigateSelection { direction, count }) {
        DispatchStep::Completed(Ok(CommandOutput::ActiveIndex { index })) => Ok(index),
        DispatchStep::Completed(Err(e)) => Err(e),
        other => panic!("unexpected dispatch step {:?}", other),
    }
}

#[test]
fn unknown_method_is_method_not_found() {
    let req = request("PlayVideo", None, 9);
    let err = parse_command(&req).unwrap_err();
    assert_eq!(err, CommandError::MethodNotFound);
    assert_eq!(err.code(), -32601);
}

#[test]
fn missing_required_field_is_invalid_params() {
    let err = parse_command(&request("OpenUrl", None, 1)).unwrap_err();
    assert_eq!(err, CommandError::InvalidParams);
    assert_eq!(err.code(), -32602);
    let err = parse_command(&request("OpenUrl", Some(empty_params()), 1)).unwrap_err();
    assert_eq!(err, CommandError::InvalidParams);
    let err = parse_command(&request("SendKey", Some(empty_params()), 1)).unwrap_err();
    assert_eq!(err, CommandError::InvalidParams);
    let err = parse_command(&request("NavigateSelection", Some(empty_params()), 1)).unwrap_err();
    assert_eq!(err, CommandError::InvalidParams);
}

#[test]
fn send_key_count_defaults_to_one() {
    let mut params = empty_params();
    params.key = Some("Enter".to_string());
    let cmd = parse_command(&request("SendKey", Some(params), 1)).unwrap();
    assert_eq!(
        cmd,
        Command::SendKey {
            key: "Enter".to_string(),
            count: 1
        }
    );
}

#[test]
fn unknown_direction_is_kept_for_the_state_machine() {
    let mut params = empty_params();
    params.direction = Some("Diagonal".to_string());
    let cmd = parse_command(&request("NavigateSelection", Some(params), 1)).unwrap();
    assert_eq!(
        cmd,
        Command::NavigateSelection {
            direction: None,
            count: 1
        }
    );
}

#[test]
fn direction_names_parse_to_actions() {
    let mut params = empty_params();
    params.direction = Some("Previous".to_string());
    params.count = Some(2);
    let cmd = parse_command(&request("NavigateSelection", Some(params), 1)).unwrap();
    assert_eq!(
        cmd,
        Command::NavigateSelection {
            direction: Some(SelectionAction::Previous),
            count: 2
        }
    );
}

#[test]
fn not_connected_is_checked_before_selection_mode() {
    let mut ctrl = BrowserController::new();
    let err = navigate(&mut ctrl, Some(SelectionAction::Next), 1).unwrap_err();
    assert_eq!(err, CommandError::NotConnected);
    assert_eq!(err.code(), -32001);
    assert_ne!(err, CommandError::SelectionModeDisabled);
}

#[test]
fn end_to_end_selection_scenario() {
    let mut ctrl = BrowserController::new();
    connect(&mut ctrl, "https://videos.example/watch");
    let elements = enter_mode(&mut ctrl, catalog(4));
    assert_eq!(elements, catalog(4));
    assert_eq!(navigate(&mut ctrl, Some(SelectionAction::Next), 1), Ok(0));
    assert_eq!(navigate(&mut ctrl, Some(SelectionAction::Next), 2), Ok(2));
    // Committing the selection clicks catalog element 2 and keeps the mode.
    assert_eq!(ctrl.select_active(), Ok(2));
    match begin(&mut ctrl, &Command::GetSelectionInfo) {
        DispatchStep::Completed(Ok(CommandOutput::Selection { info })) => {
            assert_eq!(info.active_index, Some(2));
            assert_eq!(info.total_elements, 4);
            assert_eq!(info.elements, catalog(4));
        }
        other => panic!("unexpected dispatch step {:?}", other),
    }
}

#[test]
fn empty_catalog_navigation_fails_and_keeps_pointer_empty() {
    let mut ctrl = BrowserController::new();
    connect(&mut ctrl, "https://videos.example/watch");
    let elements = enter_mode(&mut ctrl, Vec::new());
    assert!(elements.is_empty());
    let err = navigate(&mut ctrl, Some(SelectionAction::First), 1).unwrap_err();
    assert_eq!(err, CommandError::EmptyCatalog);
    assert_eq!(err.code(), -32004);
    assert_eq!(ctrl.get_selection_info().active_index, None);
}

#[test]
fn navigation_invalidates_selection() {
    let mut ctrl = BrowserController::new();
    connect(&mut ctrl, "https://videos.example/watch");
    enter_mode(&mut ctrl, catalog(4));
    assert_eq!(navigate(&mut ctrl, Some(SelectionAction::Next), 1), Ok(0));
    assert_eq!(ctrl.select_active(), Ok(0));
    let cmd = Command::OpenUrl {
        url: "https://videos.example/other".to_string(),
    };
    match begin(&mut ctrl, &cmd) {
        DispatchStep::Driver(DriverAction::NavigateTo { url }) => {
            assert_eq!(url, "https://videos.example/other");
        }
        other => panic!("unexpected dispatch step {:?}", other),
    }
    assert_eq!(
        finish(&mut ctrl, cmd, DriverOutcome::Done),
        Ok(CommandOutput::Done)
    );
    let snap = ctrl.snapshot();
    assert!(!snap.selection_mode);
    assert_eq!(snap.active_element, None);
    assert_eq!(ctrl.get_selection_info().total_elements, 0);
    assert_eq!(
        ctrl.get_current_url(),
        Ok("https://videos.example/other".to_string())
    );
}

#[test]
fn refresh_keeps_url_but_discards_selection() {
    let mut ctrl = BrowserController::new();
    connect(&mut ctrl, "https://videos.example/watch");
    enter_mode(&mut ctrl, catalog(2));
    match begin(&mut ctrl, &Command::Refresh) {
        DispatchStep::Driver(DriverAction::RefreshPage) => {}
        other => panic!("unexpected dispatch step {:?}", other),
    }
    assert_eq!(
        finish(&mut ctrl, Command::Refresh, DriverOutcome::Done),
        Ok(CommandOutput::Done)
    );
    assert!(!ctrl.snapshot().selection_mode);
    assert_eq!(
        ctrl.get_current_url(),
        Ok("https://videos.example/watch".to_string())
    );
}

#[test]
fn connect_is_idempotent() {
    let mut ctrl = BrowserController::new();
    connect(&mut ctrl, "https://videos.example/home");
    let cmd = Command::Connect {
        webdriver_url: None,
        timeout: None,
    };
    match begin(&mut ctrl, &cmd) {
        DispatchStep::Completed(Ok(CommandOutput::Connected { url })) => {
            assert_eq!(url, "https://videos.example/home");
        }
        other => panic!("unexpected dispatch step {:?}", other),
    }
    assert!(ctrl.is_connected());
}

#[test]
fn disconnect_clears_everything() {
    let mut ctrl = BrowserController::new();
    connect(&mut ctrl, "https://videos.example/home");
    enter_mode(&mut ctrl, catalog(3));
    match begin(&mut ctrl, &Command::Disconnect) {
        DispatchStep::Completed(Ok(CommandOutput::Disconnected)) => {}
        other => panic!("unexpected dispatch step {:?}", other),
    }
    let snap = ctrl.snapshot();
    assert!(!snap.is_connected);
    assert_eq!(snap.current_url, None);
    assert!(!snap.selection_mode);
    assert_eq!(ctrl.get_selection_info().total_elements, 0);
    assert_eq!(
        ctrl.get_current_url(),
        Err(CommandError::NotConnected)
    );
}

#[test]
fn get_url_requires_connection() {
    let mut ctrl = BrowserController::new();
    match begin(&mut ctrl, &Command::GetUrl) {
        DispatchStep::Completed(Err(CommandError::NotConnected)) => {}
        other => panic!("unexpected dispatch step {:?}", other),
    }
    connect(&mut ctrl, "https://videos.example/home");
    match begin(&mut ctrl, &Command::GetUrl) {
        DispatchStep::Completed(Ok(CommandOutput::Url { url })) => {
            assert_eq!(url, "https://videos.example/home");
        }
        other => panic!("unexpected dispatch step {:?}", other),
    }
}

#[test]
fn driver_failure_is_transactional() {
    let mut ctrl = BrowserController::new();
    connect(&mut ctrl, "https://videos.example/watch");
    enter_mode(&mut ctrl, catalog(2));
    assert_eq!(navigate(&mut ctrl, Some(SelectionAction::First), 1), Ok(0));
    let cmd = Command::OpenUrl {
        url: "https://videos.example/other".to_string(),
    };
    match begin(&mut ctrl, &cmd) {
        DispatchStep::Driver(_) => {}
        other => panic!("unexpected dispatch step {:?}", other),
    }
    let err = finish(
        &mut ctrl,
        cmd,
        DriverOutcome::Failed {
            message: "tab crashed".to_string(),
        },
    )
    .unwrap_err();
    assert_eq!(err, CommandError::DriverError("tab crashed".to_string()));
    assert_eq!(err.code(), -32006);
    // Nothing was committed: the selection and the URL are untouched.
    let info = ctrl.get_selection_info();
    assert_eq!(info.active_index, Some(0));
    assert_eq!(info.total_elements, 2);
    assert!(ctrl.snapshot().selection_mode);
    assert_eq!(
        ctrl.get_current_url(),
        Ok("https://videos.example/watch".to_string())
    );
}

#[test]
fn mismatched_driver_reply_is_a_driver_error() {
    let mut ctrl = BrowserController::new();
    connect(&mut ctrl, "https://videos.example/home");
    let cmd = Command::ExecuteScript {
        script: "1 + 1".to_string(),
    };
    match begin(&mut ctrl, &cmd) {
        DispatchStep::Driver(DriverAction::RunScript { .. }) => {}
        other => panic!("unexpected dispatch step {:?}", other),
    }
    let err = finish(&mut ctrl, cmd, DriverOutcome::Done).unwrap_err();
    match err {
        CommandError::DriverError(_) => {}
        other => panic!("expected a driver error, got {:?}", other),
    }
}

#[test]
fn script_value_is_returned() {
    let mut ctrl = BrowserController::new();
    connect(&mut ctrl, "https://videos.example/home");
    let cmd = Command::ExecuteScript {
        script: "document.title".to_string(),
    };
    match begin(&mut ctrl, &cmd) {
        DispatchStep::Driver(DriverAction::RunScript { script }) => {
            assert_eq!(script, "document.title");
        }
        other => panic!("unexpected dispatch step {:?}", other),
    }
    assert_eq!(
        finish(
            &mut ctrl,
            cmd,
            DriverOutcome::Value {
                value: "A video page".to_string()
            }
        ),
        Ok(CommandOutput::ScriptValue {
            value: "A video page".to_string()
        })
    );
}

#[test]
fn find_elements_keeps_mode_and_resets_pointer() {
    let mut ctrl = BrowserController::new();
    connect(&mut ctrl, "https://videos.example/watch");
    enter_mode(&mut ctrl, catalog(3));
    assert_eq!(navigate(&mut ctrl, Some(SelectionAction::Last), 1), Ok(2));
    match begin(&mut ctrl, &Command::FindElements) {
        DispatchStep::Driver(DriverAction::QueryElements) => {}
        other => panic!("unexpected dispatch step {:?}", other),
    }
    match finish(
        &mut ctrl,
        Command::FindElements,
        DriverOutcome::Elements {
            elements: catalog(5),
        },
    ) {
        Ok(CommandOutput::Elements { elements }) => assert_eq!(elements.len(), 5),
        other => panic!("expected elements, got {:?}", other),
    }
    assert!(ctrl.snapshot().selection_mode);
    let info = ctrl.get_selection_info();
    assert_eq!(info.active_index, None);
    assert_eq!(info.total_elements, 5);
}

#[test]
fn exit_selection_mode_is_a_noop_when_disabled() {
    let mut ctrl = BrowserController::new();
    match begin(&mut ctrl, &Command::ExitSelectionMode) {
        DispatchStep::Completed(Ok(CommandOutput::Done)) => {}
        other => panic!("unexpected dispatch step {:?}", other),
    }
    connect(&mut ctrl, "https://videos.example/home");
    enter_mode(&mut ctrl, catalog(2));
    match begin(&mut ctrl, &Command::ExitSelectionMode) {
        DispatchStep::Completed(Ok(CommandOutput::Done)) => {}
        other => panic!("unexpected dispatch step {:?}", other),
    }
    assert!(!ctrl.snapshot().selection_mode);
    // The catalog is retained but inert.
    assert_eq!(ctrl.get_selection_info().total_elements, 2);
}

#[test]
fn get_selection_info_never_fails() {
    let mut ctrl = BrowserController::new();
    match begin(&mut ctrl, &Command::GetSelectionInfo) {
        DispatchStep::Completed(Ok(CommandOutput::Selection { info })) => {
            assert_eq!(info.active_index, None);
            assert_eq!(info.total_elements, 0);
            assert!(info.elements.is_empty());
        }
        other => panic!("unexpected dispatch step {:?}", other),
    }
}

#[test]
fn send_key_flow() {
    let mut ctrl = BrowserController::new();
    connect(&mut ctrl, "https://videos.example/home");
    let cmd = Command::SendKey {
        key: "ArrowDown".to_string(),
        count: 3,
    };
    match begin(&mut ctrl, &cmd) {
        DispatchStep::Driver(DriverAction::PressKey { key, count }) => {
            assert_eq!(key, "ArrowDown");
            assert_eq!(count, 3);
        }
        other => panic!("unexpected dispatch step {:?}", other),
    }
    assert_eq!(
        finish(&mut ctrl, cmd, DriverOutcome::Done),
        Ok(CommandOutput::Done)
    );
}

#[test]
fn response_envelope_holds_exactly_one_side() {
    let ok = respond(7, Ok(CommandOutput::Done));
    assert_eq!(ok.jsonrpc, "2.0");
    assert_eq!(ok.id, 7);
    assert_eq!(ok.result, Some(CommandOutput::Done));
    assert_eq!(ok.error, None);

    let err = respond(8, Err(CommandError::EmptyCatalog));
    assert_eq!(err.jsonrpc, "2.0");
    assert_eq!(err.id, 8);
    assert_eq!(err.result, None);
    let e = err.error.unwrap();
    assert_eq!(e.code, -32004);
    assert_eq!(e.message, "Element catalog is empty");
    assert_eq!(e.data, None);

    let err = respond(9, Err(CommandError::DriverError("boom".to_string())));
    let e = err.error.unwrap();
    assert_eq!(e.code, -32006);
    assert_eq!(e.message, "Driver error");
    assert_eq!(e.data, Some("boom".to_string()));
}

#[test]
fn error_codes_are_stable() {
    assert_eq!(CommandError::MethodNotFound.code(), -32601);
    assert_eq!(CommandError::InvalidParams.code(), -32602);
    assert_eq!(CommandError::NotConnected.code(), -32001);
    assert_eq!(CommandError::SelectionModeDisabled.code(), -32002);
    assert_eq!(CommandError::NoActiveElement.code(), -32003);
    assert_eq!(CommandError::EmptyCatalog.code(), -32004);
    assert_eq!(CommandError::UnsupportedDirection.code(), -32005);
    assert_eq!(CommandError::DriverError("x".to_string()).code(), -32006);
}

#[test]
fn selection_mode_disabled_when_connected_but_not_entered() {
    let mut ctrl = BrowserController::new();
    connect(&mut ctrl, "https://videos.example/home");
    let err = navigate(&mut ctrl, Some(SelectionAction::Next), 1).unwrap_err();
    assert_eq!(err, CommandError::SelectionModeDisabled);
    assert_eq!(err.code(), -32002);
}

#[test]
fn catalog_commands_require_connection() {
    let mut ctrl = BrowserController::new();
    for cmd in [Command::EnterSelectionMode, Command::FindElements] {
        match begin(&mut ctrl, &cmd) {
            DispatchStep::Completed(Err(CommandError::NotConnected)) => {}
            other => panic!("unexpected dispatch step {:?}", other),
        }
    }
}

#[test]
fn history_navigation_discards_selection() {
    let mut ctrl = BrowserController::new();
    connect(&mut ctrl, "https://videos.example/watch");
    for cmd in [Command::GoBack, Command::GoForward] {
        enter_mode(&mut ctrl, catalog(2));
        assert!(ctrl.snapshot().selection_mode);
        match begin(&mut ctrl, &cmd) {
            DispatchStep::Driver(
                DriverAction::HistoryBack | DriverAction::HistoryForward,
            ) => {}
            other => panic!("unexpected dispatch step {:?}", other),
        }
        assert_eq!(
            finish(&mut ctrl, cmd, DriverOutcome::Done),
            Ok(CommandOutput::Done)
        );
        assert!(!ctrl.snapshot().selection_mode);
        assert_eq!(
            ctrl.get_current_url(),
            Ok("https://videos.example/watch".to_string())
        );
    }
}

#[test]
fn send_text_and_click_do_not_touch_state() {
    let mut ctrl = BrowserController::new();
    connect(&mut ctrl, "https://videos.example/watch");
    enter_mode(&mut ctrl, catalog(2));
    assert_eq!(navigate(&mut ctrl, Some(SelectionAction::First), 1), Ok(0));

    let cmd = Command::SendText {
        text: "hello".to_string(),
    };
    match begin(&mut ctrl, &cmd) {
        DispatchStep::Driver(DriverAction::TypeText { text }) => assert_eq!(text, "hello"),
        other => panic!("unexpected dispatch step {:?}", other),
    }
    assert_eq!(
        finish(&mut ctrl, cmd, DriverOutcome::Done),
        Ok(CommandOutput::Done)
    );

    let cmd = Command::ClickElement {
        selector: ".play".to_string(),
        index: Some(1),
    };
    match begin(&mut ctrl, &cmd) {
        DispatchStep::Driver(DriverAction::ClickSelector { selector, index }) => {
            assert_eq!(selector, ".play");
            assert_eq!(index, Some(1));
        }
        other => panic!("unexpected dispatch step {:?}", other),
    }
    assert_eq!(
        finish(&mut ctrl, cmd, DriverOutcome::Done),
        Ok(CommandOutput::Done)
    );

    // Neither command touched the selection machine or the session.
    let info = ctrl.get_selection_info();
    assert_eq!(info.active_index, Some(0));
    assert_eq!(info.total_elements, 2);
    assert!(ctrl.snapshot().selection_mode);
}

#[test]
fn connect_params_are_carried_to_the_driver() {
    let mut params = empty_params();
    params.webdriver_url = Some("http://localhost:9515".to_string());
    params.timeout = Some(30);
    let cmd = parse_command(&request("Connect", Some(params), 4)).unwrap();
    assert_eq!(
        cmd,
        Command::Connect {
            webdriver_url: Some("http://localhost:9515".to_string()),
            timeout: Some(30),
        }
    );
    let mut ctrl = BrowserController::new();
    match begin(&mut ctrl, &cmd) {
        DispatchStep::Driver(DriverAction::ConnectBrowser {
            webdriver_url,
            timeout,
        }) => {
            assert_eq!(webdriver_url, Some("http://localhost:9515".to_string()));
            assert_eq!(timeout, Some(30));
        }
        other => panic!("unexpected dispatch step {:?}", other),
    }
}

#[test]
fn fresh_controller_snapshot_is_empty() {
    let ctrl = BrowserController::new();
    assert!(!ctrl.is_connected());
    let snap = ctrl.snapshot();
    assert!(!snap.is_connected);
    assert_eq!(snap.current_url, None);
    assert_eq!(snap.window_handle, None);
    assert!(!snap.selection_mode);
    assert_eq!(snap.active_element, None);
}
