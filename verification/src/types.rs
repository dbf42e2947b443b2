//! Data shapes of the remote-control protocol: the request/response
//! envelopes, the typed per-command request bodies, and the element
//! catalog entries that the selection machinery works over.

use vstd::prelude::*;

use crate::errors::CommandError;

verus! {

/// Compares two string slices by contents.
pub fn str_eq(a: &str, b: &str) -> (r: bool)
    ensures
        r == (a@ == b@),
{
    let x: String = a.to_owned();
    let y: String = b.to_owned();
    x.eq(&y)
}

/// A selectable element captured from the page, as the selection logic sees
/// it: its position in the catalog snapshot plus descriptive text. Geometry
/// (bounding boxes) is carried by the transport layer, not read here.
#[derive(Debug, PartialEq)]
pub struct ElementInfo {
    pub index: usize,
    pub tag_name: String,
    pub text: String,
    pub classes: String,
    pub id: String,
}

impl Clone for ElementInfo {
    fn clone(&self) -> (r: Self)
        ensures
            r == *self,
    {
        ElementInfo {
            index: self.index,
            tag_name: self.tag_name.clone(),
            text: self.text.clone(),
            classes: self.classes.clone(),
            id: self.id.clone(),
        }
    }
}

/// Clones a catalog of elements, keeping the contents exactly.
pub fn clone_elements(v: &Vec<ElementInfo>) -> (r: Vec<ElementInfo>)
    ensures
        r@ == v@,
{
    let r = v.clone();
    proof {
        assert(r@ =~= v@);
    }
    r
}

/// A snapshot of the selection machine, handed back to clients: the active
/// index (if any), how many elements the catalog holds, and the elements.
#[derive(Debug, Clone, PartialEq)]
pub struct SelectionInfo {
    pub active_index: Option<usize>,
    pub total_elements: usize,
    pub elements: Vec<ElementInfo>,
}

/// Window-management request body.
#[derive(Debug, Clone)]
pub struct WindowControlRequest {
    pub action: WindowAction,
}

#[derive(Debug, Clone, Copy, PartialEq, Eq, Structural)]
pub enum WindowAction {
    Maximize,
    Fullscreen,
    WindowedFullscreen,
}

/// Directional-key request body.
#[derive(Debug, Clone)]
pub struct NavigationRequest {
    pub direction: NavigationDirection,
    pub count: Option<u32>,
}

#[derive(Debug, Clone, Copy, PartialEq, Eq, Structural)]
pub enum NavigationDirection {
    Up,
    Down,
    Left,
    Right,
    Enter,
}

/// The keyboard key a directional request stands for.
pub open spec fn spec_key_name(d: NavigationDirection) -> Seq<char> {
    match d {
        NavigationDirection::Up => "ArrowUp"@,
        NavigationDirection::Down => "ArrowDown"@,
        NavigationDirection::Left => "ArrowLeft"@,
        NavigationDirection::Right => "ArrowRight"@,
        NavigationDirection::Enter => "Enter"@,
    }
}

/// The direction a lower-case protocol name stands for, if any.
pub open spec fn spec_direction_of_name(s: Seq<char>) -> Option<NavigationDirection> {
    if s == "up"@ {
        Some(NavigationDirection::Up)
    } else if s == "down"@ {
        Some(NavigationDirection::Down)
    } else if s == "left"@ {
        Some(NavigationDirection::Left)
    } else if s == "right"@ {
        Some(NavigationDirection::Right)
    } else if s == "enter"@ {
        Some(NavigationDirection::Enter)
    } else {
        None
    }
}

impl NavigationDirection {
    /// The name of the keyboard key this direction maps to.
    pub fn key_name(&self) -> (r: String)
        ensures
            r@ == spec_key_name(*self),
    {
        match self {
            NavigationDirection::Up => "ArrowUp".to_owned(),
            NavigationDirection::Down => "ArrowDown".to_owned(),
            NavigationDirection::Left => "ArrowLeft".to_owned(),
            NavigationDirection::Right => "ArrowRight".to_owned(),
            NavigationDirection::Enter => "Enter".to_owned(),
        }
    }

    /// Parses a lower-case protocol direction name.
    pub fn from_name(s: &str) -> (r: Option<NavigationDirection>)
        ensures
            r == spec_direction_of_name(s@),
    {
        if str_eq(s, "up") {
            Some(NavigationDirection::Up)
        } else if str_eq(s, "down") {
            Some(NavigationDirection::Down)
        } else if str_eq(s, "left") {
            Some(NavigationDirection::Left)
        } else if str_eq(s, "right") {
            Some(NavigationDirection::Right)
        } else if str_eq(s, "enter") {
            Some(NavigationDirection::Enter)
        } else {
            None
        }
    }
}

/// Media-player request body.
#[derive(Debug, Clone, Copy, PartialEq, Eq, Structural)]
pub enum PlayerAction {
    PlayPause,
    Seek,
    SetSpeed,
    SetVolume,
}

/// Display-toggle request body.
#[derive(Debug, Clone)]
pub struct DisplayControlRequest {
    pub action: DisplayAction,
    pub enabled: Option<bool>,
}

#[derive(Debug, Clone, Copy, PartialEq, Eq, Structural)]
pub enum DisplayAction {
    ToggleDanmaku,
    ToggleSubtitle,
    SetResolution,
}

#[derive(Debug, Clone)]
pub struct DisplayState {
    pub danmaku_enabled: bool,
    pub subtitle_enabled: bool,
    pub resolution: String,
}

#[derive(Debug, Clone)]
pub struct WindowState {
    pub is_fullscreen: bool,
    pub is_maximized: bool,
}

/// Observable state of the whole controller, as reported to clients.
#[derive(Debug, Clone, PartialEq)]
pub struct BrowserState {
    pub is_connected: bool,
    pub current_url: Option<String>,
    pub window_handle: Option<String>,
    pub selection_mode: bool,
    pub active_element: Option<usize>,
}

/// A browser-control request body, carrying an action tag and whichever
/// optional fields that action needs.
#[derive(Debug, Clone)]
pub struct BrowserControlRequest {
    pub action: BrowserAction,
    pub url: Option<String>,
    pub selector: Option<String>,
    pub text: Option<String>,
}

/// The command surface: every method the dispatcher understands.
#[derive(Debug, Clone, Copy, PartialEq, Eq, Structural)]
pub enum BrowserAction {
    Connect,
    Disconnect,
    OpenUrl,
    GetUrl,
    Refresh,
    GoBack,
    GoForward,
    SendKey,
    SendText,
    ClickElement,
    FindElements,
    EnterSelectionMode,
    ExitSelectionMode,
    NavigateSelection,
    GetSelectionInfo,
    ExecuteScript,
}

#[derive(Debug, Clone)]
pub struct KeyRequest {
    pub key: String,
    pub count: Option<u32>,
}

#[derive(Debug, Clone)]
pub struct TextRequest {
    pub text: String,
}

#[derive(Debug, Clone)]
pub struct ElementRequest {
    pub selector: String,
    pub index: Option<usize>,
}

/// Selection-machine request body.
#[derive(Debug, Clone)]
pub struct SelectionRequest {
    pub action: SelectionAction,
    pub count: Option<u32>,
}

/// What a client may ask of the selection machine. The first four are
/// navigation directions; the rest are commit, cancel, and inspection.
#[derive(Debug, Clone, Copy, PartialEq, Eq, Structural)]
pub enum SelectionAction {
    Next,
    Previous,
    First,
    Last,
    Select,
    Cancel,
    GetInfo,
}

#[derive(Debug, Clone)]
pub struct BrowserConnectRequest {
    pub webdriver_url: Option<String>,
    pub timeout: Option<u64>,
}

#[derive(Debug, Clone)]
pub struct KeyboardEventRequest {
    pub key: String,
    pub modifiers: Option<Vec<String>>,
}

#[derive(Debug, Clone)]
pub struct ScriptRequest {
    pub script: String,
}

/// A loose success/failure reply with an optional opaque payload.
#[derive(Debug, Clone)]
pub struct GenericResponse {
    pub success: bool,
    pub message: String,
    pub data: Option<String>,
}

/// A reply carrying a list of elements.
#[derive(Debug, Clone)]
pub struct ElementListResponse {
    pub success: bool,
    pub message: String,
    pub elements: Vec<ElementInfo>,
}

/// A reply carrying a selection snapshot.
#[derive(Debug, Clone)]
pub struct SelectionStateResponse {
    pub success: bool,
    pub message: String,
    pub selection_info: Option<SelectionInfo>,
}

/// The keyboard key a lower-case direction name stands for, or
/// `UnsupportedDirection` for any other name.
pub fn navigation_key_for(direction: &str) -> (r: Result<String, CommandError>)
    ensures
        (spec_direction_of_name(direction@) matches Some(d) ==> r matches Ok(k) && k@
            == spec_key_name(d)),
        (spec_direction_of_name(direction@) is None ==> r == Err::<String, CommandError>(
            CommandError::UnsupportedDirection,
        )),
{
    match NavigationDirection::from_name(direction) {
        Option::Some(d) => Ok(d.key_name()),
        Option::None => Err(CommandError::UnsupportedDirection),
    }
}

} // verus!
