//! The selection state machine: keyboard-only navigation over an ordered
//! snapshot of page elements. It tracks whether selection mode is on and
//! which catalog entry is active, and it moves that pointer with wrapping
//! `Next`/`Previous` and absolute `First`/`Last` jumps.

use vstd::arithmetic::div_mod::{
    lemma_add_mod_noop_right, lemma_mod_add_multiples_vanish, lemma_mod_bound, lemma_small_mod,
    lemma_sub_mod_noop_right,
};
use vstd::prelude::*;

use crate::errors::CommandError;
use crate::types::{clone_elements, ElementInfo, SelectionAction, SelectionInfo};

verus! {

/// Selection-mode flag, active element pointer, and the element catalog the
/// pointer indexes into.
#[derive(Debug)]
pub struct SelectionState {
    pub mode_enabled: bool,
    pub active_index: Option<usize>,
    pub catalog: Vec<ElementInfo>,
}

/// True of the actions that are navigation directions.
pub open spec fn is_direction(a: SelectionAction) -> bool {
    ||| a is Next
    ||| a is Previous
    ||| a is First
    ||| a is Last
}

/// A repeat count of zero is treated as one.
pub open spec fn effective_count(count: u32) -> int {
    if count == 0 {
        1
    } else {
        count as int
    }
}

/// Where navigation moves the active pointer, over a catalog of `n > 0`
/// elements: `First`/`Last` jump to the ends; `Next` steps forward from the
/// active index (or starts at the first element) wrapping around; `Previous`
/// steps backward (or starts at the last element) wrapping around.
pub open spec fn nav_target(
    active: Option<usize>,
    direction: SelectionAction,
    count: u32,
    n: int,
) -> int
    recommends
        n > 0,
        is_direction(direction),
{
    let c = effective_count(count);
    match direction {
        SelectionAction::First => 0,
        SelectionAction::Last => n - 1,
        SelectionAction::Next => match active {
            Option::None => 0,
            Option::Some(i) => (i as int + c) % n,
        },
        SelectionAction::Previous => match active {
            Option::None => n - 1,
            Option::Some(i) => (i as int - c) % n,
        },
        _ => 0,
    }
}

/// A state the machine has just entered selection mode in, over the given
/// elements: mode on, nothing active yet, catalog holding exactly them.
pub open spec fn entered(s: SelectionState, elements: Seq<ElementInfo>) -> bool {
    &&& s.mode_enabled
    &&& s.active_index is None
    &&& s.catalog@ == elements
}

/// How a completed `navigate` call relates the state before (`pre`) and
/// after (`post`) to its result `r`: failures leave the state untouched and
/// come in a fixed precedence (mode disabled, then empty catalog, then bad
/// direction); success moves the active pointer to `nav_target` and nothing
/// else.
pub open spec fn navigate_post(
    pre: SelectionState,
    post: SelectionState,
    direction: Option<SelectionAction>,
    count: u32,
    r: Result<usize, CommandError>,
) -> bool {
    let n = pre.catalog@.len() as int;
    &&& post.mode_enabled == pre.mode_enabled
    &&& post.catalog == pre.catalog
    &&& (r is Err ==> post == pre)
    &&& if !pre.mode_enabled {
        r == Err::<usize, CommandError>(CommandError::SelectionModeDisabled)
    } else if n == 0 {
        r == Err::<usize, CommandError>(CommandError::EmptyCatalog)
    } else {
        match direction {
            Option::Some(d) => if is_direction(d) {
                &&& r matches Ok(i)
                &&& i as int == nav_target(pre.active_index, d, count, n)
                &&& post.active_index == Some(i)
            } else {
                r == Err::<usize, CommandError>(CommandError::UnsupportedDirection)
            },
            Option::None => r == Err::<usize, CommandError>(CommandError::UnsupportedDirection),
        }
    }
}

impl SelectionState {
    /// The machine's invariant: a disabled mode has no active element, an
    /// active element is a valid catalog position, and an empty catalog has
    /// no active element.
    pub open spec fn wf(&self) -> bool {
        &&& (!self.mode_enabled ==> self.active_index is None)
        &&& (self.active_index matches Some(i) ==> (i as int) < self.catalog@.len())
        &&& (self.catalog@.len() == 0 ==> self.active_index is None)
    }

    /// A fresh machine: mode off, nothing active, no elements.
    pub fn new() -> (s: SelectionState)
        ensures
            !s.mode_enabled,
            s.active_index is None,
            s.catalog@ == Seq::<ElementInfo>::empty(),
            s.wf(),
    {
        SelectionState { mode_enabled: false, active_index: None, catalog: Vec::new() }
    }

    /// Enters selection mode over a fresh catalog snapshot. Re-entering
    /// while already enabled just installs the new snapshot; the active
    /// index is cleared either way.
    pub fn enter(&mut self, elements: Vec<ElementInfo>)
        ensures
            entered(*final(self), elements@),
            final(self).wf(),
    {
        self.mode_enabled = true;
        self.active_index = None;
        self.catalog = elements;
    }

    /// Installs a fresh catalog snapshot without touching the mode flag.
    /// Replacing the catalog invalidates any previously active index.
    pub fn replace_catalog(&mut self, elements: Vec<ElementInfo>)
        ensures
            final(self).mode_enabled == old(self).mode_enabled,
            final(self).active_index is None,
            final(self).catalog@ == elements@,
            final(self).wf(),
    {
        self.active_index = None;
        self.catalog = elements;
    }

    /// Leaves selection mode. The catalog is retained but inert; the active
    /// index is cleared. A no-op if the mode is already off.
    pub fn exit(&mut self)
        ensures
            !final(self).mode_enabled,
            final(self).active_index is None,
            final(self).catalog == old(self).catalog,
            final(self).wf(),
    {
        self.mode_enabled = false;
        self.active_index = None;
    }

    /// Discards the machine entirely: mode off, nothing active, catalog
    /// dropped. Used when the page underneath changes or the session ends.
    pub fn clear(&mut self)
        ensures
            !final(self).mode_enabled,
            final(self).active_index is None,
            final(self).catalog@ == Seq::<ElementInfo>::empty(),
            final(self).wf(),
    {
        self.mode_enabled = false;
        self.active_index = None;
        self.catalog = Vec::new();
    }

    /// Moves the active pointer. Fails (leaving the state untouched) when
    /// the mode is off, the catalog is empty, or the direction is not a
    /// navigation direction — in that order of precedence.
    pub fn navigate(&mut self, direction: Option<SelectionAction>, count: u32) -> (r: Result<
        usize,
        CommandError,
    >)
        requires
            old(self).wf(),
        ensures
            final(self).wf(),
            navigate_post(*old(self), *final(self), direction, count, r),
    {
        if !self.mode_enabled {
            return Err(CommandError::SelectionModeDisabled);
        }
        let n = self.catalog.len();
        if n == 0 {
            return Err(CommandError::EmptyCatalog);
        }
        match direction {
            Option::Some(d) => {
                if matches!(d, SelectionAction::Next | SelectionAction::Previous
                    | SelectionAction::First | SelectionAction::Last) {
                    let i = nav_index(self.active_index, d, count, n);
                    self.active_index = Some(i);
                    Ok(i)
                } else {
                    Err(CommandError::UnsupportedDirection)
                }
            },
            Option::None => Err(CommandError::UnsupportedDirection),
        }
    }

    /// Decides which catalog element a selection commit should act on: the
    /// active one. Succeeds only with the mode on and an element active;
    /// committing does not exit selection mode, so the state is untouched.
    pub fn select_target(&self) -> (r: Result<usize, CommandError>)
        requires
            self.wf(),
        ensures
            self.mode_enabled ==> (self.active_index matches Some(i) ==> r == Ok::<
                usize,
                CommandError,
            >(i)),
            !(self.mode_enabled && self.active_index is Some) ==> r == Err::<
                usize,
                CommandError,
            >(CommandError::NoActiveElement),
    {
        if !self.mode_enabled {
            return Err(CommandError::NoActiveElement);
        }
        match self.active_index {
            Option::Some(i) => Ok(i),
            Option::None => Err(CommandError::NoActiveElement),
        }
    }

    /// A pure read of the machine: active index, catalog size, and the
    /// elements themselves. Never fails; empty and disabled states just
    /// report empty fields.
    pub fn get_info(&self) -> (r: SelectionInfo)
        ensures
            r.active_index == self.active_index,
            r.total_elements == self.catalog@.len(),
            r.elements@ == self.catalog@,
    {
        SelectionInfo {
            active_index: self.active_index,
            total_elements: self.catalog.len(),
            elements: clone_elements(&self.catalog),
        }
    }
}

/// Law: in every well-formed selection state the active index is either
/// absent or a valid position into the catalog, and a disabled mode forces
/// it to be absent.
pub proof fn lemma_selection_invariants(s: SelectionState)
    requires
        s.wf(),
    ensures
        s.active_index matches Some(i) ==> (i as int) < s.catalog@.len(),
        !s.mode_enabled ==> s.active_index is None,
{
}

/// Law: entering selection mode is idempotent. Two entries in a row over
/// the same elements leave the same catalog contents, and no element is
/// active after either entry.
pub proof fn lemma_enter_idempotent(
    s1: SelectionState,
    s2: SelectionState,
    elements: Seq<ElementInfo>,
)
    requires
        entered(s1, elements),
        entered(s2, elements),
    ensures
        s1.catalog@ == s2.catalog@,
        s1.active_index is None,
        s2.active_index is None,
{
}

/// Computes `nav_target` without overflow: counts are reduced modulo the
/// catalog size and the wrap is done by comparison instead of addition past
/// the end.
fn nav_index(active: Option<usize>, direction: SelectionAction, count: u32, n: usize) -> (r: usize)
    requires
        n > 0,
        is_direction(direction),
        active matches Some(i) ==> i < n,
    ensures
        r < n,
        r as int == nav_target(active, direction, count, n as int),
{
    let n64: u64 = n as u64;
    let ce: u64 = if count == 0 {
        1
    } else {
        count as u64
    };
    let cm: u64 = ce % n64;
    match direction {
        SelectionAction::First => 0,
        SelectionAction::Last => n - 1,
        SelectionAction::Next => match active {
            Option::None => 0,
            Option::Some(i) => {
                let b: u64 = i as u64;
                let r64: u64 = if b >= n64 - cm {
                    b - (n64 - cm)
                } else {
                    b + cm
                };
                proof {
                    lemma_wrap_forward(b as int, ce as int, n64 as int);
                }
                r64 as usize
            },
        },
        SelectionAction::Previous => match active {
            Option::None => n - 1,
            Option::Some(i) => {
                let b: u64 = i as u64;
                let r64: u64 = if b >= cm {
                    b - cm
                } else {
                    n64 - (cm - b)
                };
                proof {
                    lemma_wrap_backward(b as int, ce as int, n64 as int);
                }
                r64 as usize
            },
        },
        _ => 0,
    }
}

/// Stepping `ce` forward from `i` in a cycle of length `n` lands on
/// `(i + ce) % n`, which the reduced count `ce % n` reaches with one
/// comparison: either before the wrap point or just past it.
proof fn lemma_wrap_forward(i: int, ce: int, n: int)
    requires
        0 <= i < n,
        1 <= ce,
    ensures
        0 <= (i + ce) % n < n,
        (i + ce) % n == if i >= n - ce % n {
            i - (n - ce % n)
        } else {
            i + ce % n
        },
{
    let cm = ce % n;
    lemma_mod_bound(ce, n);
    lemma_add_mod_noop_right(i, ce, n);
    lemma_mod_bound(i + ce, n);
    if i + cm < n {
        lemma_small_mod((i + cm) as nat, n as nat);
    } else {
        lemma_mod_add_multiples_vanish(i + cm - n, n);
        lemma_small_mod((i + cm - n) as nat, n as nat);
    }
}

/// Stepping `ce` backward from `i` in a cycle of length `n` lands on
/// `(i - ce) % n`, which the reduced count `ce % n` reaches with one
/// comparison: either directly or by wrapping below zero once.
proof fn lemma_wrap_backward(i: int, ce: int, n: int)
    requires
        0 <= i < n,
        1 <= ce,
    ensures
        0 <= (i - ce) % n < n,
        (i - ce) % n == if i >= ce % n {
            i - ce % n
        } else {
            n - (ce % n - i)
        },
{
    let cm = ce % n;
    lemma_mod_bound(ce, n);
    lemma_sub_mod_noop_right(i, ce, n);
    lemma_mod_bound(i - ce, n);
    if i >= cm {
        lemma_small_mod((i - cm) as nat, n as nat);
    } else {
        lemma_mod_add_multiples_vanish(i - cm, n);
        lemma_small_mod((i + n - cm) as nat, n as nat);
    }
}

} // verus!
