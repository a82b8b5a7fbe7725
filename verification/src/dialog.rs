//! The generic dialog plugin: one value of `FieldDialog` per declared field
//! holds that field's config and its live modal windows. The operations are
//! the decision parts of the field's three systems — open (with
//! supersession), the per-frame editor write-back with input filtering, and
//! the positive / negative / host-close dismissal paths.
//!
//! Every operation preserves the single-open-dialog invariant: a field never
//! has more than one live window.

use vstd::prelude::*;
use crate::numeric::{filter_number_input, number_filtered, parse_u32, parses_as_u32};

verus! {

/// How a dialog filters its editor text each frame.
#[derive(Clone, Copy, Debug, PartialEq, Eq, Structural)]
pub enum DialogInputType {
    NUMBER,
    TEXT,
}

/// A field's immutable dialog configuration.
pub struct DialogConfig {
    pub title: String,
    pub input_type: DialogInputType,
    pub positive_action: String,
    pub negative_action: String,
}

/// A live modal window: the trigger payload it was opened with and the
/// current (already filtered) input buffer.
pub struct DialogWindow<T> {
    pub event: T,
    pub input: String,
}

/// A confirmed result: the originating trigger payload paired with the
/// user's raw confirmed input.
pub struct DialogResult<T> {
    pub event: T,
    pub result: String,
}

/// One field's dialog unit: its config and its live windows.
pub struct FieldDialog<T> {
    pub config: DialogConfig,
    pub windows: Vec<DialogWindow<T>>,
}

impl<T> FieldDialog<T> {
    /// The single-open-dialog invariant: at most one live window.
    pub open spec fn wf(self) -> bool {
        self.windows@.len() <= 1
    }

    pub open spec fn is_open(self) -> bool {
        self.windows@.len() == 1
    }

    pub open spec fn window(self) -> DialogWindow<T>
        recommends
            self.is_open(),
    {
        self.windows@[0]
    }

    /// What this field's filter leaves of a raw editor text.
    pub open spec fn filtered(self, raw: Seq<char>) -> Seq<char> {
        match self.config.input_type {
            DialogInputType::NUMBER => number_filtered(raw),
            DialogInputType::TEXT => raw,
        }
    }

    /// When the positive button acts: the input is non-empty and, for a
    /// NUMBER dialog, parses as an unsigned integer. A non-empty input that
    /// fails to parse is a validation error and leaves the window open.
    pub open spec fn accepts(self) -> bool
        recommends
            self.is_open(),
    {
        self.window().input@.len() > 0 && (self.config.input_type is NUMBER
            ==> parses_as_u32(self.window().input@))
    }

    pub fn new(config: DialogConfig) -> (d: FieldDialog<T>)
        ensures
            d.wf(),
            !d.is_open(),
            d.config == config,
    {
        FieldDialog { config, windows: Vec::new() }
    }
}

/// The open system's decision: for each pending trigger, discard any window
/// this field already has — and its pending input — and spawn a fresh one
/// holding the trigger's payload and an empty buffer. After a non-empty
/// batch exactly one window is open, seeded by the last trigger.
pub fn open_dialog<T: Copy>(dialog: &mut FieldDialog<T>, triggers: &Vec<T>)
    requires
        old(dialog).wf(),
    ensures
        final(dialog).wf(),
        final(dialog).config == old(dialog).config,
        triggers@.len() == 0 ==> final(dialog).windows@ == old(dialog).windows@,
        triggers@.len() > 0 ==> final(dialog).is_open() && final(dialog).window().event
            == triggers@.last() && final(dialog).window().input@ == Seq::<char>::empty(),
{
    let n = triggers.len();
    let mut i: usize = 0;
    while i < n
        invariant
            n == triggers@.len(),
            i <= n,
            dialog.wf(),
            dialog.config == old(dialog).config,
            i == 0 ==> dialog.windows@ == old(dialog).windows@,
            i > 0 ==> dialog.is_open() && dialog.window().event == triggers@[i - 1]
                && dialog.window().input@ == Seq::<char>::empty(),
        decreases n - i,
    {
        dialog.windows.clear();
        dialog.windows.push(DialogWindow { event: triggers[i], input: String::new() });
        i = i + 1;
    }
}

/// The per-frame editor write-back: the editor's current text, filtered by
/// the field's input type, becomes the window's input buffer.
pub fn set_input<T: Copy>(dialog: &mut FieldDialog<T>, raw: &str)
    requires
        old(dialog).wf(),
        old(dialog).is_open(),
    ensures
        final(dialog).wf(),
        final(dialog).is_open(),
        final(dialog).config == old(dialog).config,
        final(dialog).window().event == old(dialog).window().event,
        final(dialog).window().input@ == old(dialog).filtered(raw@),
{
    let filtered = match dialog.config.input_type {
        DialogInputType::NUMBER => filter_number_input(raw),
        DialogInputType::TEXT => String::from_str(raw),
    };
    let event = dialog.windows[0].event;
    dialog.windows.clear();
    dialog.windows.push(DialogWindow { event, input: filtered });
}

/// The positive button's decision. If the window's input is accepted,
/// exactly one result is returned — the originating trigger payload paired
/// with the input — and the window is destroyed. Otherwise nothing is
/// emitted and the window stays open, unchanged.
pub fn confirm_positive<T: Copy>(dialog: &mut FieldDialog<T>) -> (res: Option<DialogResult<T>>)
    requires
        old(dialog).wf(),
        old(dialog).is_open(),
    ensures
        final(dialog).wf(),
        final(dialog).config == old(dialog).config,
        old(dialog).accepts() ==> matches!(res, Some(_)) && !final(dialog).is_open(),
        !old(dialog).accepts() ==> matches!(res, None) && final(dialog).windows@ == old(
            dialog,
        ).windows@,
        res matches Some(r) ==> r.event == old(dialog).window().event && r.result@ == old(
            dialog,
        ).window().input@,
{
    let accepted = if dialog.windows[0].input.as_str().unicode_len() == 0 {
        false
    } else {
        match dialog.config.input_type {
            DialogInputType::NUMBER => {
                match parse_u32(dialog.windows[0].input.as_str()) {
                    Some(_) => true,
                    None => false,
                }
            },
            DialogInputType::TEXT => true,
        }
    };
    if accepted {
        let event = dialog.windows[0].event;
        let result = dialog.windows[0].input.clone();
        dialog.windows.clear();
        Some(DialogResult { event, result })
    } else {
        None
    }
}

/// The per-frame write-back is stable: a field's filter is a projection, so
/// filtering a window's already-filtered text changes nothing, and re-running
/// the editor pass over its own output leaves the buffer as it is.
pub proof fn lemma_write_back_stable<T>(dialog: FieldDialog<T>, raw: Seq<char>)
    ensures
        dialog.filtered(dialog.filtered(raw)) == dialog.filtered(raw),
{
    match dialog.config.input_type {
        DialogInputType::NUMBER => {
            crate::numeric::lemma_number_filter_idempotent(raw);
        },
        DialogInputType::TEXT => {},
    }
}

/// The negative button and the host's close affordance: destroy the window
/// unconditionally, emitting nothing.
pub fn close_dialog<T: Copy>(dialog: &mut FieldDialog<T>)
    requires
        old(dialog).wf(),
    ensures
        final(dialog).wf(),
        !final(dialog).is_open(),
        final(dialog).config == old(dialog).config,
{
    dialog.windows.clear();
}

} // verus!
