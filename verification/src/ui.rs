//! The single-shot selection engine.
//!
//! [`UiSelect`] collects at most one choice from an ordered list of
//! strings. The host opens a modal surface showing the items, binds a
//! confirm key and a cancel key, and forwards each key press as a
//! [`SelectEvent`]; the engine answers with the one [`SelectAction`] the
//! host must carry out. A take-once guard inside the engine makes the
//! delivery happen at most once per instance, however the keys are
//! pressed; the laws at the end of this module state that exactly.

use vstd::prelude::*;
use vstd::string::*;

verus! {

/// Options for presenting a selection, mirroring the host's select
/// facility: an optional prompt line and an optional kind tag.
pub struct SelectOpts {
    pub prompt: Option<String>,
    pub kind: Option<String>,
}

impl Default for SelectOpts {
    /// The default presentation: a generic prompt, no kind.
    fn default() -> (o: SelectOpts)
        ensures
            o.prompt matches Some(p) && p@ == "Select one of:"@,
            o.kind is None,
    {
        SelectOpts { prompt: Some(String::from_str("Select one of:")), kind: None }
    }
}

/// A key press forwarded by the host: confirm at the cursor's 1-based
/// line, or cancel.
#[derive(Clone, Copy, PartialEq, Eq, Structural, Debug)]
pub enum SelectEvent {
    Confirm(usize),
    Cancel,
}

/// What the host must do after handing an event to the engine.
#[derive(Debug)]
pub enum SelectAction {
    /// Close the surface, then invoke the one-shot callback with this
    /// payload. The engine emits this at most once per instance.
    Deliver(Option<String>),
    /// The cursor position maps to no item: report it through the
    /// notification channel and leave the surface open; the callback is
    /// still owed.
    NotifyMappingFailure,
    /// The choice was already consumed: do nothing.
    Ignore,
}

/// What the host must do when presenting the selection.
#[derive(Clone, Copy, PartialEq, Eq, Structural, Debug)]
pub enum OpenAction {
    /// Open the modal surface showing the items, one per line.
    OpenSurface,
    /// There is nothing to choose from: invoke the callback with `None`
    /// without opening any surface.
    DeliverNone,
}

/// The mathematical shape of a selection in progress: the items on offer
/// and whether the one-shot delivery has happened.
pub struct SelectView {
    pub items: Seq<Seq<char>>,
    pub consumed: bool,
}

/// The selection engine: the items on offer and the take-once guard.
pub struct UiSelect {
    items: Vec<String>,
    consumed: bool,
}

impl View for UiSelect {
    type V = SelectView;

    closed spec fn view(&self) -> SelectView {
        SelectView { items: self.items.deep_view(), consumed: self.consumed }
    }
}

/// Whether the take-once guard is held after `ev` hits state `s`:
/// cancelling or confirming an in-range line consumes it; a mapping
/// failure and anything after consumption leave it as it was.
pub open spec fn step_consumed(s: SelectView, ev: SelectEvent) -> bool {
    if s.consumed {
        true
    } else {
        match ev {
            SelectEvent::Cancel => true,
            SelectEvent::Confirm(row) => 1 <= row && row <= s.items.len(),
        }
    }
}

/// The state after `ev`: the items never change, only the guard moves.
pub open spec fn step_state(s: SelectView, ev: SelectEvent) -> SelectView {
    SelectView { items: s.items, consumed: step_consumed(s, ev) }
}

/// The callback invocation `ev` causes, if any: `Some(payload)` when the
/// callback fires with `payload`, `None` when it does not fire.
pub open spec fn step_delivery(s: SelectView, ev: SelectEvent) -> Option<Option<Seq<char>>> {
    if s.consumed {
        None
    } else {
        match ev {
            SelectEvent::Cancel => Some(None),
            SelectEvent::Confirm(row) => if 1 <= row && row <= s.items.len() {
                Some(Some(s.items[row - 1]))
            } else {
                None
            },
        }
    }
}

impl UiSelect {
    /// A fresh engine offering `items`, its callback not yet consumed.
    pub fn new(items: Vec<String>) -> (s: UiSelect)
        ensures
            s@.items == items.deep_view(),
            !s@.consumed,
    {
        UiSelect { items, consumed: false }
    }

    /// The items on offer, for the host to render, one per line.
    pub fn items(&self) -> (r: &Vec<String>)
        ensures
            r.deep_view() == self@.items,
    {
        &self.items
    }

    /// Whether the one-shot callback has been consumed.
    pub fn is_consumed(&self) -> (b: bool)
        ensures
            b == self@.consumed,
    {
        self.consumed
    }

    /// The first step of presenting: with nothing to choose from, the
    /// callback is owed `None` at once and no surface opens; otherwise
    /// the surface opens and every delivery waits for an event.
    pub fn on_open(&mut self) -> (a: OpenAction)
        requires
            !old(self)@.consumed,
        ensures
            final(self)@.items == old(self)@.items,
            old(self)@.items.len() == 0 ==> a == OpenAction::DeliverNone && final(self)@.consumed,
            old(self)@.items.len() > 0 ==> a == OpenAction::OpenSurface && !final(self)@.consumed,
    {
        if self.items.len() == 0 {
            self.consumed = true;
            OpenAction::DeliverNone
        } else {
            OpenAction::OpenSurface
        }
    }

    /// Feeds one key event through the engine. The returned action is
    /// exactly what [`step_delivery`] and [`step_consumed`] prescribe:
    /// the first cancel delivers `None`, the first confirm on an
    /// in-range line delivers that item, a confirm on an out-of-range
    /// line only asks for a notification, and everything after a
    /// delivery is ignored.
    pub fn on_event(&mut self, ev: SelectEvent) -> (a: SelectAction)
        ensures
            final(self)@ == step_state(old(self)@, ev),
            match step_delivery(old(self)@, ev) {
                Some(payload) => a matches SelectAction::Deliver(p) && p.deep_view() == payload,
                None => if old(self)@.consumed {
                    a is Ignore
                } else {
                    a is NotifyMappingFailure
                },
            },
    {
        if self.consumed {
            return SelectAction::Ignore;
        }
        match ev {
            SelectEvent::Cancel => {
                self.consumed = true;
                SelectAction::Deliver(None)
            },
            SelectEvent::Confirm(row) => {
                if row >= 1 && row <= self.items.len() {
                    self.consumed = true;
                    let item = self.items[row - 1].clone();
                    proof {
                        assert(self@.items[row - 1] == self.items@[row - 1]@);
                    }
                    SelectAction::Deliver(Some(item))
                } else {
                    SelectAction::NotifyMappingFailure
                }
            },
        }
    }
}

/// The payloads the callback receives over a whole event sequence, in
/// order.
pub open spec fn deliveries(s: SelectView, evs: Seq<SelectEvent>) -> Seq<Option<Seq<char>>>
    decreases evs.len(),
{
    if evs.len() == 0 {
        Seq::empty()
    } else {
        (match step_delivery(s, evs.first()) {
            Some(p) => seq![p],
            None => Seq::empty(),
        }) + deliveries(step_state(s, evs.first()), evs.drop_first())
    }
}

/// Once the guard is consumed, no event sequence delivers anything.
pub proof fn law_consumed_delivers_nothing(s: SelectView, evs: Seq<SelectEvent>)
    requires
        s.consumed,
    ensures
        deliveries(s, evs) == Seq::<Option<Seq<char>>>::empty(),
    decreases evs.len(),
{
    if evs.len() > 0 {
        law_consumed_delivers_nothing(step_state(s, evs.first()), evs.drop_first());
        assert(deliveries(s, evs) =~= Seq::<Option<Seq<char>>>::empty());
    }
}

/// The take-once guarantee: from any state, a whole event sequence
/// invokes the callback at most once.
pub proof fn law_at_most_one_delivery(s: SelectView, evs: Seq<SelectEvent>)
    ensures
        deliveries(s, evs).len() <= 1,
    decreases evs.len(),
{
    if evs.len() > 0 {
        let s2 = step_state(s, evs.first());
        match step_delivery(s, evs.first()) {
            Some(p) => {
                law_consumed_delivers_nothing(s2, evs.drop_first());
            },
            None => {
                law_at_most_one_delivery(s2, evs.drop_first());
            },
        }
    }
}

/// Confirming at an in-range 1-based line `i` as the first event makes
/// the callback fire exactly once, with item `i - 1`, whatever events
/// follow.
pub proof fn law_confirm_delivers_item(s: SelectView, i: usize, rest: Seq<SelectEvent>)
    requires
        !s.consumed,
        1 <= i && i <= s.items.len(),
    ensures
        deliveries(s, seq![SelectEvent::Confirm(i)] + rest) =~= seq![
            Some(s.items[i - 1]),
        ],
        step_state(s, SelectEvent::Confirm(i)).consumed,
{
    let evs = seq![SelectEvent::Confirm(i)] + rest;
    assert(evs.first() == SelectEvent::Confirm(i));
    assert(evs.drop_first() =~= rest);
    law_consumed_delivers_nothing(step_state(s, evs.first()), rest);
}

/// Confirming at an out-of-range line delivers nothing and leaves the
/// guard unconsumed, so the surface stays open for another attempt.
pub proof fn law_confirm_out_of_range(s: SelectView, i: usize)
    requires
        !s.consumed,
        i < 1 || i > s.items.len(),
    ensures
        deliveries(s, seq![SelectEvent::Confirm(i)]) == Seq::<Option<Seq<char>>>::empty(),
        !step_state(s, SelectEvent::Confirm(i)).consumed,
{
    let evs = seq![SelectEvent::Confirm(i)];
    assert(evs.first() == SelectEvent::Confirm(i));
    assert(step_delivery(s, evs.first()) is None);
    assert(evs.drop_first() =~= Seq::<SelectEvent>::empty());
    assert(deliveries(step_state(s, evs.first()), evs.drop_first())
        == Seq::<Option<Seq<char>>>::empty());
    assert(deliveries(s, evs) =~= Seq::<Option<Seq<char>>>::empty());
}

/// Cancelling as the first event makes the callback fire exactly once,
/// with `None`, whatever events follow — with many items or none.
pub proof fn law_cancel_delivers_none(s: SelectView, rest: Seq<SelectEvent>)
    requires
        !s.consumed,
    ensures
        deliveries(s, seq![SelectEvent::Cancel] + rest) =~= seq![None::<Seq<char>>],
        step_state(s, SelectEvent::Cancel).consumed,
{
    let evs = seq![SelectEvent::Cancel] + rest;
    assert(evs.first() == SelectEvent::Cancel);
    assert(evs.drop_first() =~= rest);
    law_consumed_delivers_nothing(step_state(s, evs.first()), rest);
}

/// A double cancel — the same key seen twice — still invokes the
/// callback only once.
pub proof fn law_cancel_idempotent(s: SelectView)
    requires
        !s.consumed,
    ensures
        deliveries(s, seq![SelectEvent::Cancel, SelectEvent::Cancel]) =~= seq![None::<Seq<char>>],
        deliveries(s, seq![SelectEvent::Cancel, SelectEvent::Cancel]).len() == 1,
{
    assert(seq![SelectEvent::Cancel, SelectEvent::Cancel] =~= seq![SelectEvent::Cancel]
        + seq![SelectEvent::Cancel]);
    law_cancel_delivers_none(s, seq![SelectEvent::Cancel]);
}

/// The placement of a modal surface: its size and the position of its
/// top-left corner in the viewport.
#[derive(Clone, Copy, PartialEq, Eq, Structural, Debug)]
pub struct SurfaceGeometry {
    pub width: usize,
    pub height: usize,
    pub row: usize,
    pub col: usize,
}

/// Addition capped at the machine's limit.
pub open spec fn sat_add(a: nat, b: nat) -> nat {
    if a + b > usize::MAX {
        usize::MAX as nat
    } else {
        a + b
    }
}

/// Subtraction floored at zero.
pub open spec fn sat_sub(a: nat, b: nat) -> nat {
    if a >= b {
        (a - b) as nat
    } else {
        0
    }
}

/// The length of the longest item, in characters; zero with no items.
pub open spec fn max_item_len(items: Seq<Seq<char>>) -> nat
    decreases items.len(),
{
    if items.len() == 0 {
        0
    } else {
        let rest = max_item_len(items.drop_first());
        if items.first().len() > rest {
            items.first().len()
        } else {
            rest
        }
    }
}

/// The surface width a list of items calls for: the longest item plus two
/// columns of padding, with a fallback width for an empty list.
pub open spec fn surface_width_spec(items: Seq<Seq<char>>) -> nat {
    sat_add(
        if items.len() == 0 {
            20
        } else {
            max_item_len(items)
        },
        2,
    )
}

/// The placement a list of items calls for in a viewport: one row per
/// item, centered. A viewport smaller than the content degrades to the
/// top or left edge instead of failing.
pub open spec fn geometry_spec(
    items: Seq<Seq<char>>,
    editor_width: nat,
    editor_height: nat,
) -> SurfaceGeometry {
    let width = surface_width_spec(items);
    let height = items.len();
    SurfaceGeometry {
        width: width as usize,
        height: height as usize,
        row: (sat_sub(editor_height, height) / 2) as usize,
        col: (sat_sub(editor_width, width) / 2) as usize,
    }
}

impl UiSelect {
    /// Computes where the selection surface goes in a viewport of the
    /// given size.
    pub fn window_geometry(&self, editor_width: usize, editor_height: usize) -> (g:
        SurfaceGeometry)
        ensures
            g == geometry_spec(self@.items, editor_width as nat, editor_height as nat),
    {
        let ghost iv = self@.items;
        let n = self.items.len();
        let mut longest: usize = 0;
        let mut i: usize = n;
        proof {
            assert(iv.skip(n as int) =~= Seq::<Seq<char>>::empty());
        }
        while i > 0
            invariant
                i <= n,
                n == self.items@.len(),
                iv == self@.items,
                n == iv.len(),
                longest == max_item_len(iv.skip(i as int)),
            decreases i,
        {
            i -= 1;
            let l = self.items[i].as_str().unicode_len();
            proof {
                assert(iv.skip(i as int).first() == iv[i as int]);
                assert(iv[i as int] == self.items@[i as int]@);
                assert(iv.skip(i as int).drop_first() =~= iv.skip(i + 1));
            }
            if l > longest {
                longest = l;
            }
        }
        proof {
            assert(iv.skip(0) =~= iv);
        }
        let base: usize = if n == 0 {
            20
        } else {
            longest
        };
        let width: usize = if base > usize::MAX - 2 {
            usize::MAX
        } else {
            base + 2
        };
        let height: usize = n;
        let row: usize = if editor_height >= height {
            (editor_height - height) / 2
        } else {
            0
        };
        let col: usize = if editor_width >= width {
            (editor_width - width) / 2
        } else {
            0
        };
        SurfaceGeometry { width, height, row, col }
    }
}

/// Where the top-left corner of a surface of the given size goes so the
/// surface sits centered in the viewport; a viewport smaller than the
/// surface degrades to the top or left edge.
pub fn centered_origin(editor_width: usize, editor_height: usize, width: usize, height: usize) -> (
    pos: (usize, usize))
    ensures
        pos.0 == sat_sub(editor_height as nat, height as nat) / 2,
        pos.1 == sat_sub(editor_width as nat, width as nat) / 2,
{
    let row: usize = if editor_height >= height {
        (editor_height - height) / 2
    } else {
        0
    };
    let col: usize = if editor_width >= width {
        (editor_width - width) / 2
    } else {
        0
    };
    (row, col)
}

/// The user's answer to an input prompt: empty input means the prompt
/// was cancelled.
pub fn prompt_response(input: String) -> (r: Option<String>)
    ensures
        input@.len() == 0 ==> r is None,
        input@.len() > 0 ==> (r matches Some(s) && s@ == input@),
{
    if input.as_str().is_empty() {
        None
    } else {
        Some(input)
    }
}

} // verus!
