use vstd::prelude::*;

verus! {

/// Smallest width of a geometry that may be applied to the window.
pub const MIN_WIDTH: u32 = 400;

/// Smallest height of a geometry that may be applied to the window.
pub const MIN_HEIGHT: u32 = 300;

/// The persisted record of the window's last known geometry.
#[derive(Clone, Copy, Debug, PartialEq, Eq, Structural)]
pub struct WindowState {
    pub x: i32,
    pub y: i32,
    pub width: u32,
    pub height: u32,
    pub maximized: bool,
}

/// What the host reported when asked about the window. `None` stands for a
/// query that failed.
#[derive(Clone, Copy, Debug)]
pub struct WindowQuery {
    pub minimized: Option<bool>,
    pub visible: Option<bool>,
    pub position: Option<(i32, i32)>,
    pub size: Option<(u32, u32)>,
    pub maximized: Option<bool>,
}

/// What a save does to the persisted record.
#[derive(Clone, Copy, Debug, PartialEq, Eq, Structural)]
pub enum SaveAction {
    /// Leave the record as it is.
    Keep,
    /// Replace the record by this one.
    Replace(WindowState),
    /// Load the record and, if there is one, rewrite it with the maximized flag set.
    FlagMaximized,
}

/// What a restore does to the window.
#[derive(Clone, Copy, Debug, PartialEq, Eq, Structural)]
pub enum RestoreAction {
    /// Leave the window as the host placed it.
    Untouched,
    /// Maximize the window.
    Maximize,
    /// Set the position first, then the size.
    Place { x: i32, y: i32, width: u32, height: u32 },
}

/// A record may be applied only when it is at least the minimum size.
pub open spec fn valid_geometry(s: WindowState) -> bool {
    s.width >= 400 && s.height >= 300
}

/// A failed minimized query counts as not minimized, a failed visibility
/// query as visible.
pub open spec fn degenerate(q: WindowQuery) -> bool {
    q.minimized == Some(true) || q.visible == Some(false)
}

/// The effect of saving the window in the state `q` reports.
pub open spec fn save_plan(q: WindowQuery) -> SaveAction {
    if degenerate(q) {
        SaveAction::Keep
    } else {
        match (q.position, q.size, q.maximized) {
            (Some(pos), Some(size), Some(maximized)) => if maximized {
                SaveAction::FlagMaximized
            } else {
                SaveAction::Replace(
                    WindowState {
                        x: pos.0,
                        y: pos.1,
                        width: size.0,
                        height: size.1,
                        maximized: false,
                    },
                )
            },
            _ => SaveAction::Keep,
        }
    }
}

/// The stored record with its maximized flag set.
pub open spec fn flagged_maximized(existing: Option<WindowState>) -> Option<WindowState> {
    match existing {
        Some(s) => Some(WindowState { maximized: true, ..s }),
        None => None,
    }
}

/// The effect of restoring a loaded record; `None` is no usable record.
pub open spec fn restore_plan(record: Option<WindowState>) -> RestoreAction {
    match record {
        Some(s) => if !valid_geometry(s) {
            RestoreAction::Untouched
        } else if s.maximized {
            RestoreAction::Maximize
        } else {
            RestoreAction::Place { x: s.x, y: s.y, width: s.width, height: s.height }
        },
        None => RestoreAction::Untouched,
    }
}

impl WindowState {
    /// True iff the record is large enough to be applied.
    pub fn is_valid(&self) -> (r: bool)
        ensures
            r == valid_geometry(*self),
    {
        self.width >= MIN_WIDTH && self.height >= MIN_HEIGHT
    }
}

/// Decides what saving the window's current state does to the persisted record.
///
/// A minimized or hidden window keeps the record. So does a window whose
/// position, size or maximized flag could not be read. A maximized window
/// keeps the stored geometry and only flags it as maximized; any other window
/// replaces the record by its full geometry.
pub fn save_window_state(query: &WindowQuery) -> (r: SaveAction)
    ensures
        r == save_plan(*query),
{
    if query.minimized == Some(true) || query.visible == Some(false) {
        return SaveAction::Keep;
    }
    match (query.position, query.size, query.maximized) {
        (Some(pos), Some(size), Some(maximized)) => {
            if maximized {
                SaveAction::FlagMaximized
            } else {
                SaveAction::Replace(
                    WindowState { x: pos.0, y: pos.1, width: size.0, height: size.1, maximized: false },
                )
            }
        },
        _ => SaveAction::Keep,
    }
}

/// The record to write for `SaveAction::FlagMaximized`: the stored one with
/// its maximized flag set, or nothing when no record could be loaded.
pub fn flag_maximized(existing: Option<WindowState>) -> (r: Option<WindowState>)
    ensures
        r == flagged_maximized(existing),
{
    match existing {
        Some(s) => Some(WindowState { maximized: true, ..s }),
        None => None,
    }
}

/// Decides how a loaded record is applied to the window at launch.
///
/// `None` stands for a missing or malformed record. A record below the
/// minimum size is discarded. A maximized record maximizes the window;
/// any other sets its position, then its size.
pub fn restore_window_state(record: Option<WindowState>) -> (r: RestoreAction)
    ensures
        r == restore_plan(record),
{
    match record {
        Some(s) => {
            if !s.is_valid() {
                RestoreAction::Untouched
            } else if s.maximized {
                RestoreAction::Maximize
            } else {
                RestoreAction::Place { x: s.x, y: s.y, width: s.width, height: s.height }
            }
        },
        None => RestoreAction::Untouched,
    }
}

/// Saving a visible, non-minimized, non-maximized window and restoring the
/// record puts the window back at the same position and size, provided that
/// size is at least the minimum.
pub proof fn lemma_save_restore_round_trip(q: WindowQuery, x: i32, y: i32, width: u32, height: u32)
    requires
        q.minimized != Some(true),
        q.visible != Some(false),
        q.position == Some((x, y)),
        q.size == Some((width, height)),
        q.maximized == Some(false),
        width >= 400,
        height >= 300,
    ensures
        save_plan(q) is Replace,
        restore_plan(Some(save_plan(q)->Replace_0)) == (RestoreAction::Place { x, y, width, height }),
{
}

/// Saving while the window is minimized or hidden leaves the stored record
/// unchanged.
pub proof fn lemma_degenerate_save_keeps_record(q: WindowQuery)
    requires
        q.minimized == Some(true) || q.visible == Some(false),
    ensures
        save_plan(q) == SaveAction::Keep,
{
}

/// Saving while maximized keeps the stored position and size and only sets
/// the maximized flag; restoring that record maximizes the window and leaves
/// the record as it was written.
pub proof fn lemma_maximized_save_keeps_geometry(q: WindowQuery, stored: WindowState)
    requires
        !degenerate(q),
        q.position is Some,
        q.size is Some,
        q.maximized == Some(true),
    ensures
        save_plan(q) == SaveAction::FlagMaximized,
        flagged_maximized(Some(stored)) == Some(WindowState { maximized: true, ..stored }),
        valid_geometry(stored) ==> restore_plan(flagged_maximized(Some(stored)))
            == RestoreAction::Maximize,
{
}

/// A record below the minimum size is never applied.
pub proof fn lemma_undersized_record_ignored(s: WindowState)
    requires
        s.width < 400 || s.height < 300,
    ensures
        restore_plan(Some(s)) == RestoreAction::Untouched,
{
}

/// A missing or malformed record leaves the window untouched.
pub proof fn lemma_missing_record_ignored()
    ensures
        restore_plan(None) == RestoreAction::Untouched,
{
}

} // verus!
