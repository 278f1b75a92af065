//! Render dispatch: turning model state into lines of text.
//!
//! `Window` and `EsenixContext` share one capability — given an optional
//! reference to the session context, produce the ordered cells of text to
//! paint — so a main loop can treat heterogeneous renderables uniformly.
//! Where each cell lands on screen (region splitting, widget painting) is a
//! terminal concern outside this library; the contract here pins the exact
//! text of every cell.

use vstd::prelude::*;
use vstd::string::StringExecFns;

use crate::model::{Buffer, EsenixContext, Window, mode_str};
use crate::text::{decimal_digits, decimal_string};

verus! {

/// The fallback line reporting how many buffers the session has open.
pub open spec fn open_buffers_line(n: nat) -> Seq<char> {
    "Open Buffers: "@ + decimal_digits(n)
}

/// The single line a window shows: the attached buffer's name and content
/// when `buffer_idx` resolves to a text buffer, else the open-buffer count.
/// An absent index, an out-of-range index, and a canvas buffer are all
/// ordinary fallback states, never errors.
pub open spec fn window_line(w: Window, c: EsenixContext) -> Seq<char> {
    match w.buffer_idx {
        Some(i) => {
            if i < c.buffers@.len() {
                match c.buffers@[i as int] {
                    Buffer::Text { name, content } => name@ + " --> "@ + content@,
                    Buffer::Canvas => open_buffers_line(c.buffers@.len()),
                }
            } else {
                open_buffers_line(c.buffers@.len())
            }
        },
        None => open_buffers_line(c.buffers@.len()),
    }
}

/// The status-bar cell naming the active window, or reporting that none is.
pub open spec fn window_hint(c: EsenixContext) -> Seq<char> {
    match c.active_window_idx {
        Some(i) => "Window: "@ + decimal_digits(i as nat),
        None => "No window"@,
    }
}

/// The status-bar cell identifying the buffer attached to the active window.
/// Every link of the chain — active index in range, window attached, buffer
/// index in range, buffer textual — must hold; otherwise the cell reports
/// that no buffer is attached.
pub open spec fn attached_buffer_hint(c: EsenixContext) -> Seq<char> {
    if c.active_window_idx is Some && c.active_window_idx->0 < c.windows@.len() {
        let w = c.windows@[c.active_window_idx->0 as int];
        if w.buffer_idx is Some && w.buffer_idx->0 < c.buffers@.len() {
            match c.buffers@[w.buffer_idx->0 as int] {
                Buffer::Text { name, content: _ } => "Attached Buffer: <"@
                    + decimal_digits(w.buffer_idx->0 as nat) + "::"@ + name@ + ">"@,
                Buffer::Canvas => "No buffer attached"@,
            }
        } else {
            "No buffer attached"@
        }
    } else {
        "No buffer attached"@
    }
}

/// The status-bar cell showing the current input mode.
pub open spec fn mode_hint(c: EsenixContext) -> Seq<char> {
    "-- "@ + mode_str(c.mode) + " --"@
}

/// The four status-bar cells, in display order: active window, attached
/// buffer, open-buffer count, mode.
pub open spec fn status_cells(c: EsenixContext) -> Seq<Seq<char>> {
    seq![
        window_hint(c),
        attached_buffer_hint(c),
        open_buffers_line(c.buffers@.len()),
        mode_hint(c),
    ]
}

/// The shared render capability: given an optional reference to the session
/// context, produce the ordered cells of text to paint into the renderable's
/// screen region. `render_req` says which renderables need the context (a
/// window does; the context itself does not), and `render_spec` pins each
/// implementer's exact output.
pub trait TuiRenderable {
    spec fn render_req(&self, context: Option<&EsenixContext>) -> bool;

    spec fn render_spec(&self, context: Option<&EsenixContext>) -> Seq<Seq<char>>;

    fn render(&self, context: Option<&EsenixContext>) -> (cells: Vec<String>)
        requires
            self.render_req(context),
        ensures
            cells.deep_view() == self.render_spec(context),
    ;
}

/// The open-buffer-count fallback line as an owned string.
fn open_buffers_string(count: usize) -> (s: String)
    ensures
        s@ == open_buffers_line(count as nat),
{
    let mut s = String::from_str("Open Buffers: ");
    let n = decimal_string(count);
    s.append(n.as_str());
    s
}

impl TuiRenderable for Window {
    /// A window renders through the context's buffer collection.
    open spec fn render_req(&self, context: Option<&EsenixContext>) -> bool {
        context is Some
    }

    open spec fn render_spec(&self, context: Option<&EsenixContext>) -> Seq<Seq<char>> {
        seq![window_line(*self, *context->0)]
    }

    /// One cell: `"{name} --> {content}"` for an attached text buffer, else
    /// `"Open Buffers: {count}"`.
    fn render(&self, context: Option<&EsenixContext>) -> (cells: Vec<String>)
    {
        let c = match context {
            Some(c) => c,
            None => unreached(),
        };
        let line = match self.buffer_idx {
            Some(i) => {
                if i < c.buffers.len() {
                    match &c.buffers[i] {
                        Buffer::Text { name, content } => {
                            let mut s = name.clone();
                            s.append(" --> ");
                            s.append(content.as_str());
                            s
                        },
                        Buffer::Canvas => open_buffers_string(c.buffers.len()),
                    }
                } else {
                    open_buffers_string(c.buffers.len())
                }
            },
            None => open_buffers_string(c.buffers.len()),
        };
        let mut cells: Vec<String> = Vec::new();
        cells.push(line);
        proof {
            assert(cells.deep_view() =~= self.render_spec(context));
        }
        cells
    }
}

impl TuiRenderable for EsenixContext {
    /// The status bar reads only the session itself.
    open spec fn render_req(&self, context: Option<&EsenixContext>) -> bool {
        true
    }

    open spec fn render_spec(&self, context: Option<&EsenixContext>) -> Seq<Seq<char>> {
        status_cells(*self)
    }

    /// The status bar: active-window cell, attached-buffer cell, buffer-count
    /// cell, mode cell, each resilient to absent or out-of-range indices.
    fn render(&self, context: Option<&EsenixContext>) -> (cells: Vec<String>)
    {
        let window_cell = match self.active_window_idx {
            Some(i) => {
                let mut s = String::from_str("Window: ");
                let n = decimal_string(i);
                s.append(n.as_str());
                s
            },
            None => String::from_str("No window"),
        };

        let mut attached_cell = String::from_str("No buffer attached");
        if let Some(wi) = self.active_window_idx {
            if wi < self.windows.len() {
                if let Some(bi) = self.windows[wi].buffer_idx {
                    if bi < self.buffers.len() {
                        if let Buffer::Text { name, content: _ } = &self.buffers[bi] {
                            let mut s = String::from_str("Attached Buffer: <");
                            let n = decimal_string(bi);
                            s.append(n.as_str());
                            s.append("::");
                            s.append(name.as_str());
                            s.append(">");
                            attached_cell = s;
                        }
                    }
                }
            }
        }

        let count_cell = open_buffers_string(self.buffers.len());

        let mut mode_cell = String::from_str("-- ");
        mode_cell.append(self.mode.as_str());
        mode_cell.append(" --");

        let mut cells: Vec<String> = Vec::new();
        cells.push(window_cell);
        cells.push(attached_cell);
        cells.push(count_cell);
        cells.push(mode_cell);
        proof {
            assert(cells.deep_view() =~= self.render_spec(context));
        }
        cells
    }
}

/// The cells every window shows, in window order: one frame's main content.
pub open spec fn frame_window_cells(c: EsenixContext) -> Seq<Seq<Seq<char>>> {
    Seq::new(c.windows@.len(), |i: int| seq![window_line(c.windows@[i], c)])
}

/// One frame's worth of text: render every window against the context for
/// the content region, then the context itself for the status region.
pub fn render_frame(c: &EsenixContext) -> (r: (Vec<Vec<String>>, Vec<String>))
    ensures
        r.0.deep_view() == frame_window_cells(*c),
        r.1.deep_view() == status_cells(*c),
{
    let mut window_cells: Vec<Vec<String>> = Vec::new();
    let mut i: usize = 0;
    while i < c.windows.len()
        invariant
            i <= c.windows@.len(),
            window_cells@.len() == i,
            forall|j: int| 0 <= j < i as int ==> #[trigger] window_cells@[j].deep_view()
                == seq![window_line(c.windows@[j], *c)],
        decreases c.windows@.len() - i,
    {
        let w = c.windows[i];
        let rendered = w.render(Some(c));
        window_cells.push(rendered);
        i = i + 1;
    }
    proof {
        assert(window_cells.deep_view() =~= frame_window_cells(*c));
    }
    let status = c.render(None);
    (window_cells, status)
}

} // verus!
