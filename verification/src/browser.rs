//! The session: one controller per browser connection, owning the
//! connectivity flag, the current URL, and the selection state machine.
//! Every stateful operation is gated on being connected, and state is
//! committed only after the driver reports success.

use vstd::prelude::*;

use crate::errors::CommandError;
use crate::selection::SelectionState;
use crate::types::{BrowserState, SelectionInfo};

verus! {

/// Connectivity, current URL, and the nested selection machine.
#[derive(Debug)]
pub struct BrowserController {
    pub connected: bool,
    pub current_url: Option<String>,
    pub selection: SelectionState,
}

/// The characters of the session's current URL, or the empty sequence while
/// none is held.
pub open spec fn url_chars(c: BrowserController) -> Seq<char> {
    match c.current_url {
        Option::Some(u) => u@,
        Option::None => Seq::empty(),
    }
}

/// The page under the session changed (a navigation succeeded): the
/// connection is kept, but the selection machine is discarded entirely —
/// mode off, nothing active, catalog dropped.
pub open spec fn page_changed(pre: BrowserController, post: BrowserController) -> bool {
    &&& post.connected == pre.connected
    &&& !post.selection.mode_enabled
    &&& post.selection.active_index is None
    &&& post.selection.catalog@.len() == 0
}

impl BrowserController {
    /// Session invariant: the nested machine is well-formed, a URL is held
    /// only while connected, and a disconnected session has no selection
    /// state at all.
    pub open spec fn wf(&self) -> bool {
        &&& self.selection.wf()
        &&& (!self.connected ==> self.current_url is None)
        &&& (!self.connected ==> !self.selection.mode_enabled)
        &&& (!self.connected ==> self.selection.catalog@.len() == 0)
    }

    /// A fresh controller: disconnected, no URL, no selection state.
    pub fn new() -> (c: BrowserController)
        ensures
            !c.connected,
            c.current_url is None,
            !c.selection.mode_enabled,
            c.selection.active_index is None,
            c.selection.catalog@.len() == 0,
            c.wf(),
    {
        BrowserController {
            connected: false,
            current_url: None,
            selection: SelectionState::new(),
        }
    }

    /// Whether the session is connected.
    pub fn is_connected(&self) -> (b: bool)
        ensures
            b == self.connected,
    {
        self.connected
    }

    /// Records a connection the driver reported, landing on `url`.
    /// Idempotent: connecting an already connected session changes nothing.
    pub fn connect(&mut self, url: String)
        requires
            old(self).wf(),
        ensures
            final(self).wf(),
            final(self).connected,
            old(self).connected ==> *final(self) == *old(self),
            !old(self).connected ==> {
                &&& final(self).current_url == Some(url)
                &&& final(self).selection == old(self).selection
            },
    {
        if !self.connected {
            self.connected = true;
            self.current_url = Some(url);
        }
    }

    /// Ends the session: disconnected, URL cleared, and any selection state
    /// discarded as a documented side effect.
    pub fn disconnect(&mut self)
        ensures
            final(self).wf(),
            !final(self).connected,
            final(self).current_url is None,
            !final(self).selection.mode_enabled,
            final(self).selection.active_index is None,
            final(self).selection.catalog@.len() == 0,
    {
        self.connected = false;
        self.current_url = None;
        self.selection.clear();
    }

    /// The current URL, for a connected session; the empty string while no
    /// URL is held. A disconnected session is refused before anything else.
    pub fn get_current_url(&self) -> (r: Result<String, CommandError>)
        requires
            self.wf(),
        ensures
            !self.connected ==> r == Err::<String, CommandError>(CommandError::NotConnected),
            self.connected ==> (r matches Ok(u) && u@ == url_chars(*self)),
    {
        if !self.connected {
            return Err(CommandError::NotConnected);
        }
        match &self.current_url {
            Option::Some(u) => Ok(u.clone()),
            Option::None => Ok(String::new()),
        }
    }

    /// Commits a successful `OpenUrl`: the session now points at `url` and,
    /// the page having changed, the selection machine is discarded.
    pub fn commit_open_url(&mut self, url: String)
        requires
            old(self).wf(),
            old(self).connected,
        ensures
            final(self).wf(),
            page_changed(*old(self), *final(self)),
            final(self).current_url == Some(url),
    {
        self.current_url = Some(url);
        self.selection.clear();
    }

    /// Commits a successful refresh or history navigation: the URL the core
    /// tracks is kept, but the page was rebuilt, so the selection machine is
    /// discarded.
    pub fn commit_navigation(&mut self)
        requires
            old(self).wf(),
            old(self).connected,
        ensures
            final(self).wf(),
            page_changed(*old(self), *final(self)),
            final(self).current_url == old(self).current_url,
    {
        self.selection.clear();
    }

    /// Decides which catalog element a selection commit should click.
    /// Connectivity is checked before any selection-state precondition.
    /// Selection mode persists after a successful commit: the state is
    /// untouched either way.
    pub fn select_active(&self) -> (r: Result<usize, CommandError>)
        requires
            self.wf(),
        ensures
            !self.connected ==> r == Err::<usize, CommandError>(CommandError::NotConnected),
            self.connected && self.selection.mode_enabled ==> (self.selection.active_index
                matches Some(i) ==> r == Ok::<usize, CommandError>(i)),
            self.connected && !(self.selection.mode_enabled && self.selection.active_index
                is Some) ==> r == Err::<usize, CommandError>(CommandError::NoActiveElement),
    {
        if !self.connected {
            return Err(CommandError::NotConnected);
        }
        self.selection.select_target()
    }

    /// A pure read of the selection machine; never fails, reporting empty
    /// fields while the mode is off or the catalog is empty.
    pub fn get_selection_info(&self) -> (r: SelectionInfo)
        ensures
            r.active_index == self.selection.active_index,
            r.total_elements == self.selection.catalog@.len(),
            r.elements@ == self.selection.catalog@,
    {
        self.selection.get_info()
    }

    /// The observable state of the whole controller. The core does not
    /// track window handles, so that field is always absent.
    pub fn snapshot(&self) -> (r: BrowserState)
        ensures
            r.is_connected == self.connected,
            r.current_url == self.current_url,
            r.window_handle is None,
            r.selection_mode == self.selection.mode_enabled,
            r.active_element == self.selection.active_index,
    {
        BrowserState {
            is_connected: self.connected,
            current_url: match &self.current_url {
                Option::Some(u) => Some(u.clone()),
                Option::None => None,
            },
            window_handle: None,
            selection_mode: self.selection.mode_enabled,
            active_element: self.selection.active_index,
        }
    }
}

/// Law: a successful navigation invalidates any selection — afterwards the
/// mode is off and no element is active, whatever was selected before.
pub proof fn lemma_navigation_invalidates_selection(
    pre: BrowserController,
    post: BrowserController,
)
    requires
        page_changed(pre, post),
    ensures
        !post.selection.mode_enabled,
        post.selection.active_index is None,
{
}

} // verus!
