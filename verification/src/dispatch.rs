//! The command dispatcher: resolves a request envelope into a typed
//! command, enforces every precondition before any driver work, and maps
//! each outcome to exactly one success payload or one structured error,
//! preserving the request id. Dispatch is transactional: a failed command
//! never leaves a partial state change behind.
//!
//! Driver calls are slow, external work, so a command runs in two halves:
//! `begin` either completes it or names the one `DriverAction` required,
//! and `finish` commits the state change once the driver has reported.

use vstd::prelude::*;

use crate::browser::{page_changed, url_chars, BrowserController};
use crate::errors::CommandError;
use crate::selection::{entered, navigate_post};
use crate::types::{
    clone_elements, str_eq, BrowserAction, ElementInfo, SelectionAction, SelectionInfo,
};

verus! {

/// The parameter bag of a request: every field any command may need, each
/// optional. Which fields are required is decided per command.
#[derive(Debug, Clone, PartialEq)]
pub struct RequestParams {
    pub url: Option<String>,
    pub selector: Option<String>,
    pub text: Option<String>,
    pub key: Option<String>,
    pub direction: Option<String>,
    pub script: Option<String>,
    pub webdriver_url: Option<String>,
    pub count: Option<u32>,
    pub index: Option<usize>,
    pub timeout: Option<u64>,
}

/// A request envelope: method name, optional parameters, and the id the
/// response must carry back.
#[derive(Debug, PartialEq)]
pub struct MCPRequest {
    pub jsonrpc: String,
    pub method: String,
    pub params: Option<RequestParams>,
    pub id: u64,
}

/// A structured error: stable code, fixed message, and an optional opaque
/// detail (the driver's own words, for driver failures).
#[derive(Debug, PartialEq)]
pub struct MCPError {
    pub code: i32,
    pub message: String,
    pub data: Option<String>,
}

/// A response envelope. Exactly one of `result` and `error` is present.
#[derive(Debug, PartialEq)]
pub struct MCPResponse {
    pub jsonrpc: String,
    pub result: Option<CommandOutput>,
    pub error: Option<MCPError>,
    pub id: u64,
}

/// A typed command: one variant per method, carrying exactly the fields
/// that method needs, already validated.
#[derive(Debug, PartialEq)]
pub enum Command {
    Connect { webdriver_url: Option<String>, timeout: Option<u64> },
    Disconnect,
    OpenUrl { url: String },
    GetUrl,
    Refresh,
    GoBack,
    GoForward,
    SendKey { key: String, count: u32 },
    SendText { text: String },
    ClickElement { selector: String, index: Option<usize> },
    FindElements,
    EnterSelectionMode,
    ExitSelectionMode,
    NavigateSelection { direction: Option<SelectionAction>, count: u32 },
    GetSelectionInfo,
    ExecuteScript { script: String },
}

/// The success payload of a command.
#[derive(Debug, PartialEq)]
pub enum CommandOutput {
    Connected { url: String },
    Disconnected,
    Done,
    Url { url: String },
    Elements { elements: Vec<ElementInfo> },
    ActiveIndex { index: usize },
    Selection { info: SelectionInfo },
    ScriptValue { value: String },
}

/// One unit of external browser work the driver must perform.
#[derive(Debug, PartialEq)]
pub enum DriverAction {
    ConnectBrowser { webdriver_url: Option<String>, timeout: Option<u64> },
    NavigateTo { url: String },
    RefreshPage,
    HistoryBack,
    HistoryForward,
    PressKey { key: String, count: u32 },
    TypeText { text: String },
    ClickSelector { selector: String, index: Option<usize> },
    QueryElements,
    RunScript { script: String },
}

/// What the driver reported back for a `DriverAction`.
#[derive(Debug, PartialEq)]
pub enum DriverOutcome {
    Done,
    ConnectedAt { url: String },
    Elements { elements: Vec<ElementInfo> },
    Value { value: String },
    Failed { message: String },
}

/// How far `begin` got: the command completed without the driver, or one
/// driver action is required before `finish` can commit it.
#[derive(Debug, PartialEq)]
pub enum DispatchStep {
    Completed(Result<CommandOutput, CommandError>),
    Driver(DriverAction),
}

/// The method a request name stands for, if any.
pub open spec fn spec_method_of(m: Seq<char>) -> Option<BrowserAction> {
    if m == "Connect"@ {
        Some(BrowserAction::Connect)
    } else if m == "Disconnect"@ {
        Some(BrowserAction::Disconnect)
    } else if m == "OpenUrl"@ {
        Some(BrowserAction::OpenUrl)
    } else if m == "GetUrl"@ {
        Some(BrowserAction::GetUrl)
    } else if m == "Refresh"@ {
        Some(BrowserAction::Refresh)
    } else if m == "GoBack"@ {
        Some(BrowserAction::GoBack)
    } else if m == "GoForward"@ {
        Some(BrowserAction::GoForward)
    } else if m == "SendKey"@ {
        Some(BrowserAction::SendKey)
    } else if m == "SendText"@ {
        Some(BrowserAction::SendText)
    } else if m == "ClickElement"@ {
        Some(BrowserAction::ClickElement)
    } else if m == "FindElements"@ {
        Some(BrowserAction::FindElements)
    } else if m == "EnterSelectionMode"@ {
        Some(BrowserAction::EnterSelectionMode)
    } else if m == "ExitSelectionMode"@ {
        Some(BrowserAction::ExitSelectionMode)
    } else if m == "NavigateSelection"@ {
        Some(BrowserAction::NavigateSelection)
    } else if m == "GetSelectionInfo"@ {
        Some(BrowserAction::GetSelectionInfo)
    } else if m == "ExecuteScript"@ {
        Some(BrowserAction::ExecuteScript)
    } else {
        None
    }
}

/// The selection action a direction name stands for, if any. Directions are
/// named exactly like the actions.
pub open spec fn spec_direction_of(s: Seq<char>) -> Option<SelectionAction> {
    if s == "Next"@ {
        Some(SelectionAction::Next)
    } else if s == "Previous"@ {
        Some(SelectionAction::Previous)
    } else if s == "First"@ {
        Some(SelectionAction::First)
    } else if s == "Last"@ {
        Some(SelectionAction::Last)
    } else if s == "Select"@ {
        Some(SelectionAction::Select)
    } else if s == "Cancel"@ {
        Some(SelectionAction::Cancel)
    } else if s == "GetInfo"@ {
        Some(SelectionAction::GetInfo)
    } else {
        None
    }
}

/// The typed command a method and parameter bag resolve to: an unknown
/// method is `MethodNotFound`, a missing required field is `InvalidParams`.
/// An unrecognized direction name is *not* a parse error: it is carried as
/// `None` and refused by the state machine, after its own preconditions.
pub open spec fn spec_command_of(action: BrowserAction, params: Option<RequestParams>) -> Result<
    Command,
    CommandError,
> {
    match action {
        BrowserAction::Connect => Ok(
            Command::Connect {
                webdriver_url: match params {
                    Option::Some(p) => p.webdriver_url,
                    Option::None => None,
                },
                timeout: match params {
                    Option::Some(p) => p.timeout,
                    Option::None => None,
                },
            },
        ),
        BrowserAction::Disconnect => Ok(Command::Disconnect),
        BrowserAction::OpenUrl => match params {
            Option::Some(p) => match p.url {
                Option::Some(u) => Ok(Command::OpenUrl { url: u }),
                Option::None => Err(CommandError::InvalidParams),
            },
            Option::None => Err(CommandError::InvalidParams),
        },
        BrowserAction::GetUrl => Ok(Command::GetUrl),
        BrowserAction::Refresh => Ok(Command::Refresh),
        BrowserAction::GoBack => Ok(Command::GoBack),
        BrowserAction::GoForward => Ok(Command::GoForward),
        BrowserAction::SendKey => match params {
            Option::Some(p) => match p.key {
                Option::Some(k) => Ok(
                    Command::SendKey {
                        key: k,
                        count: match p.count {
                            Option::Some(c) => c,
                            Option::None => 1,
                        },
                    },
                ),
                Option::None => Err(CommandError::InvalidParams),
            },
            Option::None => Err(CommandError::InvalidParams),
        },
        BrowserAction::SendText => match params {
            Option::Some(p) => match p.text {
                Option::Some(t) => Ok(Command::SendText { text: t }),
                Option::None => Err(CommandError::InvalidParams),
            },
            Option::None => Err(CommandError::InvalidParams),
        },
        BrowserAction::ClickElement => match params {
            Option::Some(p) => match p.selector {
                Option::Some(s) => Ok(Command::ClickElement { selector: s, index: p.index }),
                Option::None => Err(CommandError::InvalidParams),
            },
            Option::None => Err(CommandError::InvalidParams),
        },
        BrowserAction::FindElements => Ok(Command::FindElements),
        BrowserAction::EnterSelectionMode => Ok(Command::EnterSelectionMode),
        BrowserAction::ExitSelectionMode => Ok(Command::ExitSelectionMode),
        BrowserAction::NavigateSelection => match params {
            Option::Some(p) => match p.direction {
                Option::Some(d) => Ok(
                    Command::NavigateSelection {
                        direction: spec_direction_of(d@),
                        count: match p.count {
                            Option::Some(c) => c,
                            Option::None => 1,
                        },
                    },
                ),
                Option::None => Err(CommandError::InvalidParams),
            },
            Option::None => Err(CommandError::InvalidParams),
        },
        BrowserAction::GetSelectionInfo => Ok(Command::GetSelectionInfo),
        BrowserAction::ExecuteScript => match params {
            Option::Some(p) => match p.script {
                Option::Some(s) => Ok(Command::ExecuteScript { script: s }),
                Option::None => Err(CommandError::InvalidParams),
            },
            Option::None => Err(CommandError::InvalidParams),
        },
    }
}

/// What parsing a whole request resolves to.
pub open spec fn spec_parse(method: Seq<char>, params: Option<RequestParams>) -> Result<
    Command,
    CommandError,
> {
    match spec_method_of(method) {
        Option::Some(action) => spec_command_of(action, params),
        Option::None => Err(CommandError::MethodNotFound),
    }
}

/// Whether a command must consult the driver before it can complete, given
/// the session it runs against. `Connect` needs the driver only while
/// disconnected (it is an idempotent no-op otherwise); every other driver
/// command needs it only while connected (otherwise it is refused with
/// `NotConnected` before any driver work).
pub open spec fn needs_driver(pre: BrowserController, cmd: Command) -> bool {
    match cmd {
        Command::Connect { .. } => !pre.connected,
        Command::OpenUrl { .. } => pre.connected,
        Command::Refresh => pre.connected,
        Command::GoBack => pre.connected,
        Command::GoForward => pre.connected,
        Command::SendKey { .. } => pre.connected,
        Command::SendText { .. } => pre.connected,
        Command::ClickElement { .. } => pre.connected,
        Command::FindElements => pre.connected,
        Command::EnterSelectionMode => pre.connected,
        Command::ExecuteScript { .. } => pre.connected,
        _ => false,
    }
}

/// The one driver action a command requires, when `needs_driver` holds.
pub open spec fn action_for(cmd: Command) -> DriverAction {
    match cmd {
        Command::Connect { webdriver_url, timeout } => DriverAction::ConnectBrowser {
            webdriver_url,
            timeout,
        },
        Command::OpenUrl { url } => DriverAction::NavigateTo { url },
        Command::Refresh => DriverAction::RefreshPage,
        Command::GoBack => DriverAction::HistoryBack,
        Command::GoForward => DriverAction::HistoryForward,
        Command::SendKey { key, count } => DriverAction::PressKey { key, count },
        Command::SendText { text } => DriverAction::TypeText { text },
        Command::ClickElement { selector, index } => DriverAction::ClickSelector {
            selector,
            index,
        },
        Command::ExecuteScript { script } => DriverAction::RunScript { script },
        _ => DriverAction::QueryElements,
    }
}

/// The message attached to a driver reply whose shape does not answer the
/// command that was sent.
pub open spec fn mismatch_msg() -> Seq<char> {
    "Driver returned an unexpected result"@
}

/// How a command `begin` completed without the driver relates the states
/// and the result: errors change nothing; the pure commands (`Disconnect`,
/// `GetUrl`, `ExitSelectionMode`, `NavigateSelection`, `GetSelectionInfo`,
/// and an already-connected `Connect`) do exactly their one step.
pub open spec fn completed_post(
    pre: BrowserController,
    post: BrowserController,
    cmd: Command,
    r: Result<CommandOutput, CommandError>,
) -> bool {
    &&& (r is Err ==> post == pre)
    &&& match cmd {
        Command::Connect { .. } => {
            &&& post == pre
            &&& (r matches Ok(CommandOutput::Connected { url }) && url@ == url_chars(pre))
        },
        Command::Disconnect => {
            &&& !post.connected
            &&& post.current_url is None
            &&& !post.selection.mode_enabled
            &&& post.selection.active_index is None
            &&& post.selection.catalog@.len() == 0
            &&& r == Ok::<CommandOutput, CommandError>(CommandOutput::Disconnected)
        },
        Command::GetUrl => {
            &&& post == pre
            &&& if pre.connected {
                r matches Ok(CommandOutput::Url { url }) && url@ == url_chars(pre)
            } else {
                r == Err::<CommandOutput, CommandError>(CommandError::NotConnected)
            }
        },
        Command::ExitSelectionMode => {
            &&& post.connected == pre.connected
            &&& post.current_url == pre.current_url
            &&& !post.selection.mode_enabled
            &&& post.selection.active_index is None
            &&& post.selection.catalog == pre.selection.catalog
            &&& r == Ok::<CommandOutput, CommandError>(CommandOutput::Done)
        },
        Command::NavigateSelection { direction, count } => {
            &&& post.connected == pre.connected
            &&& post.current_url == pre.current_url
            &&& if pre.connected {
                match r {
                    Result::Ok(out) => {
                        &&& out matches CommandOutput::ActiveIndex { index }
                        &&& navigate_post(pre.selection, post.selection, direction, count, Ok(index))
                    },
                    Result::Err(e) => navigate_post(
                        pre.selection,
                        post.selection,
                        direction,
                        count,
                        Err(e),
                    ),
                }
            } else {
                r == Err::<CommandOutput, CommandError>(CommandError::NotConnected)
            }
        },
        Command::GetSelectionInfo => {
            &&& post == pre
            &&& (r matches Ok(CommandOutput::Selection { info }) && {
                &&& info.active_index == pre.selection.active_index
                &&& info.total_elements == pre.selection.catalog@.len()
                &&& info.elements@ == pre.selection.catalog@
            })
        },
        _ => {
            // A driver command completing here means its connectivity
            // precondition failed before any driver work.
            r == Err::<CommandOutput, CommandError>(CommandError::NotConnected)
        },
    }
}

/// The full contract of `begin`: a command either completes as
/// `completed_post` says, or — exactly when `needs_driver` holds — the
/// state is untouched and the one matching driver action is handed back.
pub open spec fn begin_post(
    pre: BrowserController,
    post: BrowserController,
    cmd: Command,
    step: DispatchStep,
) -> bool {
    &&& (step is Driver <==> needs_driver(pre, cmd))
    &&& (step is Driver ==> post == pre && step == DispatchStep::Driver(action_for(cmd)))
    &&& (step matches DispatchStep::Completed(r) ==> completed_post(pre, post, cmd, r))
}

/// The full contract of `finish`: a driver failure is surfaced verbatim as
/// `DriverError` with no state change; a reply of the wrong shape is a
/// `DriverError` too; a success commits exactly the command's one state
/// change and payload.
pub open spec fn finish_post(
    pre: BrowserController,
    post: BrowserController,
    cmd: Command,
    outcome: DriverOutcome,
    r: Result<CommandOutput, CommandError>,
) -> bool {
    &&& (r is Err ==> post == pre)
    &&& (outcome matches DriverOutcome::Failed { message } ==> r == Err::<
        CommandOutput,
        CommandError,
    >(CommandError::DriverError(message)))
    &&& match cmd {
        Command::Connect { .. } => match outcome {
            DriverOutcome::ConnectedAt { url } => {
                &&& post.connected
                &&& post.current_url == Some(url)
                &&& post.selection == pre.selection
                &&& (r matches Ok(CommandOutput::Connected { url: u }) && u == url)
            },
            DriverOutcome::Failed { .. } => true,
            _ => mismatched(r),
        },
        Command::OpenUrl { url } => match outcome {
            DriverOutcome::Done => {
                &&& page_changed(pre, post)
                &&& post.current_url == Some(url)
                &&& r == Ok::<CommandOutput, CommandError>(CommandOutput::Done)
            },
            DriverOutcome::Failed { .. } => true,
            _ => mismatched(r),
        },
        Command::Refresh | Command::GoBack | Command::GoForward => match outcome {
            DriverOutcome::Done => {
                &&& page_changed(pre, post)
                &&& post.current_url == pre.current_url
                &&& r == Ok::<CommandOutput, CommandError>(CommandOutput::Done)
            },
            DriverOutcome::Failed { .. } => true,
            _ => mismatched(r),
        },
        Command::SendKey { .. } | Command::SendText { .. } | Command::ClickElement { .. } => match outcome {
            DriverOutcome::Done => post == pre && r == Ok::<
                CommandOutput,
                CommandError,
            >(CommandOutput::Done),
            DriverOutcome::Failed { .. } => true,
            _ => mismatched(r),
        },
        Command::ExecuteScript { .. } => match outcome {
            DriverOutcome::Value { value } => post == pre && r == Ok::<
                CommandOutput,
                CommandError,
            >(CommandOutput::ScriptValue { value }),
            DriverOutcome::Failed { .. } => true,
            _ => mismatched(r),
        },
        Command::FindElements => match outcome {
            DriverOutcome::Elements { elements } => {
                &&& post.connected == pre.connected
                &&& post.current_url == pre.current_url
                &&& post.selection.mode_enabled == pre.selection.mode_enabled
                &&& post.selection.active_index is None
                &&& post.selection.catalog@ == elements@
                &&& (r matches Ok(CommandOutput::Elements { elements: es }) && es@ == elements@)
            },
            DriverOutcome::Failed { .. } => true,
            _ => mismatched(r),
        },
        Command::EnterSelectionMode => match outcome {
            DriverOutcome::Elements { elements } => {
                &&& post.connected == pre.connected
                &&& post.current_url == pre.current_url
                &&& entered(post.selection, elements@)
                &&& (r matches Ok(CommandOutput::Elements { elements: es }) && es@ == elements@)
            },
            DriverOutcome::Failed { .. } => true,
            _ => mismatched(r),
        },
        _ => true,
    }
}

/// A reply of the wrong shape: refused as a `DriverError` with a fixed
/// message.
pub open spec fn mismatched(r: Result<CommandOutput, CommandError>) -> bool {
    r matches Err(CommandError::DriverError(m)) && m@ == mismatch_msg()
}

fn clone_opt_string(o: &Option<String>) -> (r: Option<String>)
    ensures
        r == *o,
{
    match o {
        Option::Some(s) => Some(s.clone()),
        Option::None => None,
    }
}

fn mismatch_error() -> (e: CommandError)
    ensures
        e matches CommandError::DriverError(m) && m@ == mismatch_msg(),
{
    CommandError::DriverError("Driver returned an unexpected result".to_owned())
}

/// Resolves a method name.
pub fn method_of(m: &str) -> (r: Option<BrowserAction>)
    ensures
        r == spec_method_of(m@),
{
    if str_eq(m, "Connect") {
        Some(BrowserAction::Connect)
    } else if str_eq(m, "Disconnect") {
        Some(BrowserAction::Disconnect)
    } else if str_eq(m, "OpenUrl") {
        Some(BrowserAction::OpenUrl)
    } else if str_eq(m, "GetUrl") {
        Some(BrowserAction::GetUrl)
    } else if str_eq(m, "Refresh") {
        Some(BrowserAction::Refresh)
    } else if str_eq(m, "GoBack") {
        Some(BrowserAction::GoBack)
    } else if str_eq(m, "GoForward") {
        Some(BrowserAction::GoForward)
    } else if str_eq(m, "SendKey") {
        Some(BrowserAction::SendKey)
    } else if str_eq(m, "SendText") {
        Some(BrowserAction::SendText)
    } else if str_eq(m, "ClickElement") {
        Some(BrowserAction::ClickElement)
    } else if str_eq(m, "FindElements") {
        Some(BrowserAction::FindElements)
    } else if str_eq(m, "EnterSelectionMode") {
        Some(BrowserAction::EnterSelectionMode)
    } else if str_eq(m, "ExitSelectionMode") {
        Some(BrowserAction::ExitSelectionMode)
    } else if str_eq(m, "NavigateSelection") {
        Some(BrowserAction::NavigateSelection)
    } else if str_eq(m, "GetSelectionInfo") {
        Some(BrowserAction::GetSelectionInfo)
    } else if str_eq(m, "ExecuteScript") {
        Some(BrowserAction::ExecuteScript)
    } else {
        None
    }
}

/// Resolves a direction name.
pub fn direction_of(s: &str) -> (r: Option<SelectionAction>)
    ensures
        r == spec_direction_of(s@),
{
    if str_eq(s, "Next") {
        Some(SelectionAction::Next)
    } else if str_eq(s, "Previous") {
        Some(SelectionAction::Previous)
    } else if str_eq(s, "First") {
        Some(SelectionAction::First)
    } else if str_eq(s, "Last") {
        Some(SelectionAction::Last)
    } else if str_eq(s, "Select") {
        Some(SelectionAction::Select)
    } else if str_eq(s, "Cancel") {
        Some(SelectionAction::Cancel)
    } else if str_eq(s, "GetInfo") {
        Some(SelectionAction::GetInfo)
    } else {
        None
    }
}

/// Builds the typed command a method resolves to, validating that every
/// field the command requires is present.
pub fn command_of(action: BrowserAction, params: &Option<RequestParams>) -> (r: Result<
    Command,
    CommandError,
>)
    ensures
        r == spec_command_of(action, *params),
{
    match action {
        BrowserAction::Connect => match params {
            Option::Some(p) => Ok(
                Command::Connect {
                    webdriver_url: clone_opt_string(&p.webdriver_url),
                    timeout: p.timeout,
                },
            ),
            Option::None => Ok(Command::Connect { webdriver_url: None, timeout: None }),
        },
        BrowserAction::Disconnect => Ok(Command::Disconnect),
        BrowserAction::OpenUrl => match params {
            Option::Some(p) => match &p.url {
                Option::Some(u) => Ok(Command::OpenUrl { url: u.clone() }),
                Option::None => Err(CommandError::InvalidParams),
            },
            Option::None => Err(CommandError::InvalidParams),
        },
        BrowserAction::GetUrl => Ok(Command::GetUrl),
        BrowserAction::Refresh => Ok(Command::Refresh),
        BrowserAction::GoBack => Ok(Command::GoBack),
        BrowserAction::GoForward => Ok(Command::GoForward),
        BrowserAction::SendKey => match params {
            Option::Some(p) => match &p.key {
                Option::Some(k) => Ok(
                    Command::SendKey {
                        key: k.clone(),
                        count: match p.count {
                            Option::Some(c) => c,
                            Option::None => 1,
                        },
                    },
                ),
                Option::None => Err(CommandError::InvalidParams),
            },
            Option::None => Err(CommandError::InvalidParams),
        },
        BrowserAction::SendText => match params {
            Option::Some(p) => match &p.text {
                Option::Some(t) => Ok(Command::SendText { text: t.clone() }),
                Option::None => Err(CommandError::InvalidParams),
            },
            Option::None => Err(CommandError::InvalidParams),
        },
        BrowserAction::ClickElement => match params {
            Option::Some(p) => match &p.selector {
                Option::Some(s) => Ok(
                    Command::ClickElement { selector: s.clone(), index: p.index },
                ),
                Option::None => Err(CommandError::InvalidParams),
            },
            Option::None => Err(CommandError::InvalidParams),
        },
        BrowserAction::FindElements => Ok(Command::FindElements),
        BrowserAction::EnterSelectionMode => Ok(Command::EnterSelectionMode),
        BrowserAction::ExitSelectionMode => Ok(Command::ExitSelectionMode),
        BrowserAction::NavigateSelection => match params {
            Option::Some(p) => match &p.direction {
                Option::Some(d) => Ok(
                    Command::NavigateSelection {
                        direction: direction_of(d.as_str()),
                        count: match p.count {
                            Option::Some(c) => c,
                            Option::None => 1,
                        },
                    },
                ),
                Option::None => Err(CommandError::InvalidParams),
            },
            Option::None => Err(CommandError::InvalidParams),
        },
        BrowserAction::GetSelectionInfo => Ok(Command::GetSelectionInfo),
        BrowserAction::ExecuteScript => match params {
            Option::Some(p) => match &p.script {
                Option::Some(s) => Ok(Command::ExecuteScript { script: s.clone() }),
                Option::None => Err(CommandError::InvalidParams),
            },
            Option::None => Err(CommandError::InvalidParams),
        },
    }
}

/// Resolves a whole request envelope into a typed command: an unknown
/// method is `MethodNotFound`, a missing required field `InvalidParams` —
/// both detected before any state is touched.
pub fn parse_command(req: &MCPRequest) -> (r: Result<Command, CommandError>)
    ensures
        r == spec_parse(req.method@, req.params),
{
    match method_of(req.method.as_str()) {
        Option::Some(action) => command_of(action, &req.params),
        Option::None => Err(CommandError::MethodNotFound),
    }
}

/// Runs a command as far as the core can on its own: it either completes
/// (pure commands, and every precondition failure) or hands back the one
/// driver action required, leaving the state untouched until `finish`.
pub fn begin(ctrl: &mut BrowserController, cmd: &Command) -> (step: DispatchStep)
    requires
        old(ctrl).wf(),
    ensures
        final(ctrl).wf(),
        begin_post(*old(ctrl), *final(ctrl), *cmd, step),
{
    match cmd {
        Command::Connect { webdriver_url, timeout } => {
            if ctrl.is_connected() {
                let url = match &ctrl.current_url {
                    Option::Some(u) => u.clone(),
                    Option::None => String::new(),
                };
                DispatchStep::Completed(Ok(CommandOutput::Connected { url }))
            } else {
                DispatchStep::Driver(
                    DriverAction::ConnectBrowser {
                        webdriver_url: clone_opt_string(webdriver_url),
                        timeout: *timeout,
                    },
                )
            }
        },
        Command::Disconnect => {
            ctrl.disconnect();
            DispatchStep::Completed(Ok(CommandOutput::Disconnected))
        },
        Command::OpenUrl { url } => {
            if ctrl.is_connected() {
                DispatchStep::Driver(DriverAction::NavigateTo { url: url.clone() })
            } else {
                DispatchStep::Completed(Err(CommandError::NotConnected))
            }
        },
        Command::GetUrl => match ctrl.get_current_url() {
            Result::Ok(u) => DispatchStep::Completed(Ok(CommandOutput::Url { url: u })),
            Result::Err(e) => DispatchStep::Completed(Err(e)),
        },
        Command::Refresh => {
            if ctrl.is_connected() {
                DispatchStep::Driver(DriverAction::RefreshPage)
            } else {
                DispatchStep::Completed(Err(CommandError::NotConnected))
            }
        },
        Command::GoBack => {
            if ctrl.is_connected() {
                DispatchStep::Driver(DriverAction::HistoryBack)
            } else {
                DispatchStep::Completed(Err(CommandError::NotConnected))
            }
        },
        Command::GoForward => {
            if ctrl.is_connected() {
                DispatchStep::Driver(DriverAction::HistoryForward)
            } else {
                DispatchStep::Completed(Err(CommandError::NotConnected))
            }
        },
        Command::SendKey { key, count } => {
            if ctrl.is_connected() {
                DispatchStep::Driver(DriverAction::PressKey { key: key.clone(), count: *count })
            } else {
                DispatchStep::Completed(Err(CommandError::NotConnected))
            }
        },
        Command::SendText { text } => {
            if ctrl.is_connected() {
                DispatchStep::Driver(DriverAction::TypeText { text: text.clone() })
            } else {
                DispatchStep::Completed(Err(CommandError::NotConnected))
            }
        },
        Command::ClickElement { selector, index } => {
            if ctrl.is_connected() {
                DispatchStep::Driver(
                    DriverAction::ClickSelector { selector: selector.clone(), index: *index },
                )
            } else {
                DispatchStep::Completed(Err(CommandError::NotConnected))
            }
        },
        Command::FindElements => {
            if ctrl.is_connected() {
                DispatchStep::Driver(DriverAction::QueryElements)
            } else {
                DispatchStep::Completed(Err(CommandError::NotConnected))
            }
        },
        Command::EnterSelectionMode => {
            if ctrl.is_connected() {
                DispatchStep::Driver(DriverAction::QueryElements)
            } else {
                DispatchStep::Completed(Err(CommandError::NotConnected))
            }
        },
        Command::ExitSelectionMode => {
            ctrl.selection.exit();
            DispatchStep::Completed(Ok(CommandOutput::Done))
        },
        Command::NavigateSelection { direction, count } => {
            if ctrl.is_connected() {
                match ctrl.selection.navigate(*direction, *count) {
                    Result::Ok(i) => DispatchStep::Completed(
                        Ok(CommandOutput::ActiveIndex { index: i }),
                    ),
                    Result::Err(e) => DispatchStep::Completed(Err(e)),
                }
            } else {
                DispatchStep::Completed(Err(CommandError::NotConnected))
            }
        },
        Command::GetSelectionInfo => DispatchStep::Completed(
            Ok(CommandOutput::Selection { info: ctrl.get_selection_info() }),
        ),
        Command::ExecuteScript { script } => {
            if ctrl.is_connected() {
                DispatchStep::Driver(DriverAction::RunScript { script: script.clone() })
            } else {
                DispatchStep::Completed(Err(CommandError::NotConnected))
            }
        },
    }
}

/// Commits a command once the driver has reported: failures are surfaced
/// verbatim with no state change; a success commits exactly the one state
/// change the command stands for.
pub fn finish(ctrl: &mut BrowserController, cmd: Command, outcome: DriverOutcome) -> (r: Result<
    CommandOutput,
    CommandError,
>)
    requires
        old(ctrl).wf(),
        needs_driver(*old(ctrl), cmd),
    ensures
        final(ctrl).wf(),
        finish_post(*old(ctrl), *final(ctrl), cmd, outcome, r),
{
    match cmd {
        Command::Connect { .. } => match outcome {
            DriverOutcome::ConnectedAt { url } => {
                ctrl.connect(url.clone());
                Ok(CommandOutput::Connected { url })
            },
            DriverOutcome::Failed { message } => Err(CommandError::DriverError(message)),
            _ => Err(mismatch_error()),
        },
        Command::OpenUrl { url } => match outcome {
            DriverOutcome::Done => {
                ctrl.commit_open_url(url);
                Ok(CommandOutput::Done)
            },
            DriverOutcome::Failed { message } => Err(CommandError::DriverError(message)),
            _ => Err(mismatch_error()),
        },
        Command::Refresh | Command::GoBack | Command::GoForward => match outcome {
            DriverOutcome::Done => {
                ctrl.commit_navigation();
                Ok(CommandOutput::Done)
            },
            DriverOutcome::Failed { message } => Err(CommandError::DriverError(message)),
            _ => Err(mismatch_error()),
        },
        Command::SendKey { .. } | Command::SendText { .. } | Command::ClickElement {
            ..
        } => match outcome {
            DriverOutcome::Done => Ok(CommandOutput::Done),
            DriverOutcome::Failed { message } => Err(CommandError::DriverError(message)),
            _ => Err(mismatch_error()),
        },
        Command::ExecuteScript { .. } => match outcome {
            DriverOutcome::Value { value } => Ok(CommandOutput::ScriptValue { value }),
            DriverOutcome::Failed { message } => Err(CommandError::DriverError(message)),
            _ => Err(mismatch_error()),
        },
        Command::FindElements => match outcome {
            DriverOutcome::Elements { elements } => {
                let es = clone_elements(&elements);
                ctrl.selection.replace_catalog(elements);
                Ok(CommandOutput::Elements { elements: es })
            },
            DriverOutcome::Failed { message } => Err(CommandError::DriverError(message)),
            _ => Err(mismatch_error()),
        },
        Command::EnterSelectionMode => match outcome {
            DriverOutcome::Elements { elements } => {
                let es = clone_elements(&elements);
                ctrl.selection.enter(elements);
                Ok(CommandOutput::Elements { elements: es })
            },
            DriverOutcome::Failed { message } => Err(CommandError::DriverError(message)),
            _ => Err(mismatch_error()),
        },
        _ => vstd::pervasive::unreached(),
    }
}

/// Wraps a command result in the response envelope for request `id`:
/// exactly one of `result` and `error` is present, the id is preserved, and
/// an error carries its stable code, its fixed message, and — for driver
/// failures — the driver's message as opaque data.
pub fn respond(id: u64, r: Result<CommandOutput, CommandError>) -> (resp: MCPResponse)
    ensures
        resp.jsonrpc@ == "2.0"@,
        resp.id == id,
        (r matches Ok(out) ==> resp.result == Some(out) && resp.error is None),
        (r matches Err(e) ==> {
            &&& resp.result is None
            &&& resp.error matches Some(me)
            &&& me.code as int == e.spec_code()
            &&& me.message@ == e.spec_message()
            &&& (e matches CommandError::DriverError(m) ==> me.data == Some(m))
            &&& (!(e is DriverError) ==> me.data is None)
        }),
{
    match r {
        Result::Ok(out) => MCPResponse {
            jsonrpc: "2.0".to_owned(),
            result: Some(out),
            error: None,
            id,
        },
        Result::Err(e) => MCPResponse {
            jsonrpc: "2.0".to_owned(),
            result: None,
            error: Some(MCPError { code: e.code(), message: e.message(), data: e.detail() }),
            id,
        },
    }
}

/// Law: connectivity is checked before any selection-state precondition — a
/// `NavigateSelection` against a disconnected session is refused with
/// `NotConnected`, never `SelectionModeDisabled`.
pub proof fn lemma_precondition_ordering(
    pre: BrowserController,
    post: BrowserController,
    direction: Option<SelectionAction>,
    count: u32,
    step: DispatchStep,
)
    requires
        !pre.connected,
        begin_post(pre, post, Command::NavigateSelection { direction, count }, step),
    ensures
        step == DispatchStep::Completed(
            Err::<CommandOutput, CommandError>(CommandError::NotConnected),
        ),
{
}

} // verus!
