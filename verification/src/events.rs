//! The per-field trigger events, the aggregator event that unions them, and
//! the dispatcher that fans aggregator events out to the per-field streams.
//!
//! The form emits only aggregator events; each variant carries the trigger
//! payload of one field. The dispatcher preserves emission order and turns
//! each aggregator event into exactly one per-field trigger.

use vstd::prelude::*;
use crate::color::LinearRgba;

verus! {

/// Trigger for the name dialog; the dialog needs no seed payload.
#[derive(Clone, Copy, Debug, PartialEq, Eq, Structural)]
pub struct ChangeNameEvent;

/// Trigger for the age field; no dialog, each event ages the person by one.
#[derive(Clone, Copy, Debug, PartialEq, Eq, Structural)]
pub struct GrowOlderEvent;

/// Trigger for the location dialog; the dialog needs no seed payload.
#[derive(Clone, Copy, Debug, PartialEq, Eq, Structural)]
pub struct ChangeLocationEvent;

/// Trigger for the color picker, seeded with the person's current color.
#[derive(Clone, Copy, Debug, PartialEq, Eq, Structural)]
pub struct OpenColorPickerEvent {
    pub color: LinearRgba,
}

/// Trigger for the counter dialog, seeded with the current counter.
#[derive(Clone, Copy, Debug, PartialEq, Eq, Structural)]
pub struct ChangeCounterEvent {
    pub counter: u32,
}

/// The aggregator: a tagged union over the declared field triggers, one
/// variant per field, in declaration order.
#[derive(Clone, Copy, Debug, PartialEq, Eq, Structural)]
pub enum AppEvent {
    ChangeName(ChangeNameEvent),
    GrowOlder(GrowOlderEvent),
    ChangeLocation(ChangeLocationEvent),
    OpenColorPicker(OpenColorPickerEvent),
    ChangeCounter(ChangeCounterEvent),
}

/// The name triggers carried by an aggregator sequence, in order.
pub open spec fn name_triggers(es: Seq<AppEvent>) -> Seq<ChangeNameEvent>
    decreases es.len(),
{
    if es.len() == 0 {
        Seq::empty()
    } else {
        let rest = name_triggers(es.drop_last());
        match es.last() {
            AppEvent::ChangeName(p) => rest.push(p),
            _ => rest,
        }
    }
}

/// The age triggers carried by an aggregator sequence, in order.
pub open spec fn grow_older_triggers(es: Seq<AppEvent>) -> Seq<GrowOlderEvent>
    decreases es.len(),
{
    if es.len() == 0 {
        Seq::empty()
    } else {
        let rest = grow_older_triggers(es.drop_last());
        match es.last() {
            AppEvent::GrowOlder(p) => rest.push(p),
            _ => rest,
        }
    }
}

/// The location triggers carried by an aggregator sequence, in order.
pub open spec fn location_triggers(es: Seq<AppEvent>) -> Seq<ChangeLocationEvent>
    decreases es.len(),
{
    if es.len() == 0 {
        Seq::empty()
    } else {
        let rest = location_triggers(es.drop_last());
        match es.last() {
            AppEvent::ChangeLocation(p) => rest.push(p),
            _ => rest,
        }
    }
}

/// The picker triggers carried by an aggregator sequence, in order.
pub open spec fn picker_triggers(es: Seq<AppEvent>) -> Seq<OpenColorPickerEvent>
    decreases es.len(),
{
    if es.len() == 0 {
        Seq::empty()
    } else {
        let rest = picker_triggers(es.drop_last());
        match es.last() {
            AppEvent::OpenColorPicker(p) => rest.push(p),
            _ => rest,
        }
    }
}

/// The counter triggers carried by an aggregator sequence, in order.
pub open spec fn counter_triggers(es: Seq<AppEvent>) -> Seq<ChangeCounterEvent>
    decreases es.len(),
{
    if es.len() == 0 {
        Seq::empty()
    } else {
        let rest = counter_triggers(es.drop_last());
        match es.last() {
            AppEvent::ChangeCounter(p) => rest.push(p),
            _ => rest,
        }
    }
}

/// The per-field trigger streams the dispatcher writes to.
pub struct TriggerStreams {
    pub change_name: Vec<ChangeNameEvent>,
    pub grow_older: Vec<GrowOlderEvent>,
    pub change_location: Vec<ChangeLocationEvent>,
    pub open_color_picker: Vec<OpenColorPickerEvent>,
    pub change_counter: Vec<ChangeCounterEvent>,
}

impl TriggerStreams {
    pub fn new() -> (s: TriggerStreams)
        ensures
            s.change_name@ == Seq::<ChangeNameEvent>::empty(),
            s.grow_older@ == Seq::<GrowOlderEvent>::empty(),
            s.change_location@ == Seq::<ChangeLocationEvent>::empty(),
            s.open_color_picker@ == Seq::<OpenColorPickerEvent>::empty(),
            s.change_counter@ == Seq::<ChangeCounterEvent>::empty(),
    {
        TriggerStreams {
            change_name: Vec::new(),
            grow_older: Vec::new(),
            change_location: Vec::new(),
            open_color_picker: Vec::new(),
            change_counter: Vec::new(),
        }
    }
}

/// The dispatcher: drains the aggregator queue and appends each event's
/// payload to the stream of its variant, preserving emission order.
pub fn on_track_event(events: &Vec<AppEvent>, streams: &mut TriggerStreams)
    ensures
        final(streams).change_name@ == old(streams).change_name@ + name_triggers(events@),
        final(streams).grow_older@ == old(streams).grow_older@ + grow_older_triggers(events@),
        final(streams).change_location@ == old(streams).change_location@ + location_triggers(
            events@,
        ),
        final(streams).open_color_picker@ == old(streams).open_color_picker@ + picker_triggers(
            events@,
        ),
        final(streams).change_counter@ == old(streams).change_counter@ + counter_triggers(events@),
{
    let n = events.len();
    let mut i: usize = 0;
    while i < n
        invariant
            n == events@.len(),
            i <= n,
            streams.change_name@ == old(streams).change_name@ + name_triggers(events@.take(i as int)),
            streams.grow_older@ == old(streams).grow_older@ + grow_older_triggers(
                events@.take(i as int),
            ),
            streams.change_location@ == old(streams).change_location@ + location_triggers(
                events@.take(i as int),
            ),
            streams.open_color_picker@ == old(streams).open_color_picker@ + picker_triggers(
                events@.take(i as int),
            ),
            streams.change_counter@ == old(streams).change_counter@ + counter_triggers(
                events@.take(i as int),
            ),
        decreases n - i,
    {
        proof {
            assert(events@.take(i + 1).drop_last() =~= events@.take(i as int));
            assert(events@.take(i + 1).last() == events@[i as int]);
        }
        match events[i] {
            AppEvent::ChangeName(p) => streams.change_name.push(p),
            AppEvent::GrowOlder(p) => streams.grow_older.push(p),
            AppEvent::ChangeLocation(p) => streams.change_location.push(p),
            AppEvent::OpenColorPicker(p) => streams.open_color_picker.push(p),
            AppEvent::ChangeCounter(p) => streams.change_counter.push(p),
        }
        i = i + 1;
    }
    proof {
        assert(events@.take(n as int) =~= events@);
    }
}

/// Dispatch neither drops nor duplicates: over any aggregator sequence the
/// per-field trigger streams hold exactly one trigger per event.
pub proof fn lemma_dispatch_preserves_count(es: Seq<AppEvent>)
    ensures
        name_triggers(es).len() + grow_older_triggers(es).len() + location_triggers(es).len()
            + picker_triggers(es).len() + counter_triggers(es).len() == es.len(),
    decreases es.len(),
{
    if es.len() > 0 {
        lemma_dispatch_preserves_count(es.drop_last());
    }
}

/// Each aggregator event fans out to exactly one per-field trigger, and that
/// trigger carries the variant's payload.
pub proof fn lemma_aggregator_fanout(e: AppEvent)
    ensures
        name_triggers(seq![e]).len() + grow_older_triggers(seq![e]).len() + location_triggers(
            seq![e],
        ).len() + picker_triggers(seq![e]).len() + counter_triggers(seq![e]).len() == 1,
        e matches AppEvent::ChangeName(p) ==> name_triggers(seq![e]) == seq![p],
        e matches AppEvent::GrowOlder(p) ==> grow_older_triggers(seq![e]) == seq![p],
        e matches AppEvent::ChangeLocation(p) ==> location_triggers(seq![e]) == seq![p],
        e matches AppEvent::OpenColorPicker(p) ==> picker_triggers(seq![e]) == seq![p],
        e matches AppEvent::ChangeCounter(p) ==> counter_triggers(seq![e]) == seq![p],
{
    let s = seq![e];
    assert(s.drop_last() =~= Seq::<AppEvent>::empty());
    assert(s.last() == e);
    assert(name_triggers(s.drop_last()) =~= Seq::<ChangeNameEvent>::empty());
    assert(grow_older_triggers(s.drop_last()) =~= Seq::<GrowOlderEvent>::empty());
    assert(location_triggers(s.drop_last()) =~= Seq::<ChangeLocationEvent>::empty());
    assert(picker_triggers(s.drop_last()) =~= Seq::<OpenColorPickerEvent>::empty());
    assert(counter_triggers(s.drop_last()) =~= Seq::<ChangeCounterEvent>::empty());
    match e {
        AppEvent::ChangeName(p) => {
            assert(name_triggers(s) =~= seq![p]);
        },
        AppEvent::GrowOlder(p) => {
            assert(grow_older_triggers(s) =~= seq![p]);
        },
        AppEvent::ChangeLocation(p) => {
            assert(location_triggers(s) =~= seq![p]);
        },
        AppEvent::OpenColorPicker(p) => {
            assert(picker_triggers(s) =~= seq![p]);
        },
        AppEvent::ChangeCounter(p) => {
            assert(counter_triggers(s) =~= seq![p]);
        },
    }
}

} // verus!
