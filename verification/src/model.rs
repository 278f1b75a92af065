//! The editor's data model: buffers, windows, and the session context.
//!
//! All cross-references are weak index references: a `Window` points at a
//! `Buffer` by position, and the context points at its active `Window` by
//! position. An absent or out-of-range index is a normal display state
//! ("no buffer attached", "no window active"), never an error, so the model
//! carries no validity invariant; every lookup is bounds-checked at use time.

use vstd::prelude::*;

verus! {

/// The current input mode of the session. `Insert` is reserved for future
/// editing behaviour; only the status bar reads the mode today.
#[derive(Clone, Copy, Debug, PartialEq, Eq)]
pub enum EsenixMode {
    Normal,
    Insert,
}

/// The display name of a mode, as shown in the status bar.
pub open spec fn mode_str(m: EsenixMode) -> Seq<char> {
    match m {
        EsenixMode::Normal => "Normal"@,
        EsenixMode::Insert => "Insert"@,
    }
}

impl EsenixMode {
    /// The mode's display name.
    pub fn as_str(&self) -> (r: &'static str)
        ensures
            r@ == mode_str(*self),
    {
        match self {
            EsenixMode::Normal => "Normal",
            EsenixMode::Insert => "Insert",
        }
    }
}

/// One addressable unit of content: named editable text, or an opaque
/// placeholder with nothing displayable.
#[derive(Clone, Debug, PartialEq, Eq)]
pub enum Buffer {
    Text { name: String, content: String },
    Canvas,
}

/// A viewport that may display one buffer, referenced weakly by its index
/// into the session's buffer collection.
#[derive(Clone, Copy, Debug, PartialEq, Eq)]
pub struct Window {
    pub buffer_idx: Option<usize>,
}

impl Default for Window {
    /// A fresh window starts unattached.
    fn default() -> (w: Window)
        ensures
            w.buffer_idx is None,
    {
        Window { buffer_idx: None }
    }
}

/// The session root: the single owner of all buffers and windows, plus the
/// current mode and the (weak) index of the active window.
#[derive(Clone, Debug, PartialEq, Eq)]
pub struct EsenixContext {
    pub mode: EsenixMode,
    pub active_window_idx: Option<usize>,
    pub windows: Vec<Window>,
    pub buffers: Vec<Buffer>,
}

impl Default for EsenixContext {
    /// A fresh session: normal mode, no buffers, no windows, none active.
    fn default() -> (c: EsenixContext)
        ensures
            c.mode == EsenixMode::Normal,
            c.active_window_idx is None,
            c.windows@ =~= Seq::<Window>::empty(),
            c.buffers@ =~= Seq::<Buffer>::empty(),
    {
        EsenixContext {
            mode: EsenixMode::Normal,
            active_window_idx: None,
            windows: Vec::new(),
            buffers: Vec::new(),
        }
    }
}

} // verus!
