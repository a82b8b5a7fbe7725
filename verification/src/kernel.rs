//! The plugin kernel instantiated for the person form: the five declared
//! fields, their dialog units and the picker store, composed around the
//! person record. `update` is one Update-phase pass — aggregator dispatch
//! first, then every field's open system — and the `confirm_*` methods are
//! a field's positive-confirm path followed by its result handler, as the
//! frame loop runs them.

use vstd::prelude::*;
use crate::change_color::{cancel_color, open_color_picker, save_color, ColorPicker};
use crate::dialog::{
    close_dialog, confirm_positive, open_dialog, set_input, DialogConfig, DialogInputType,
    FieldDialog,
};
use crate::events::{
    counter_triggers, grow_older_triggers, location_triggers, name_triggers, on_track_event,
    picker_triggers, AppEvent, ChangeCounterEvent, ChangeLocationEvent, ChangeNameEvent,
    TriggerStreams,
};
use crate::handlers::{
    change_counter, change_location, change_name, counter_outcome, grow_older, last_accepted,
};
use crate::numeric::{dec_value, parses_as_u32};
use crate::person::PersonResource;

verus! {

/// The whole edit surface: the person record, one dialog unit per
/// dialog-based field, and the picker store.
pub struct PersonApp {
    pub person: PersonResource,
    pub name_dialog: FieldDialog<ChangeNameEvent>,
    pub location_dialog: FieldDialog<ChangeLocationEvent>,
    pub counter_dialog: FieldDialog<ChangeCounterEvent>,
    pub pickers: Vec<ColorPicker>,
}

impl PersonApp {
    /// Every field keeps the single-open-dialog invariant, and each dialog
    /// field keeps its declared input type: name and location are TEXT, the
    /// counter is NUMBER.
    pub open spec fn wf(self) -> bool {
        &&& self.name_dialog.wf()
        &&& self.location_dialog.wf()
        &&& self.counter_dialog.wf()
        &&& self.pickers@.len() <= 1
        &&& self.name_dialog.config.input_type is TEXT
        &&& self.location_dialog.config.input_type is TEXT
        &&& self.counter_dialog.config.input_type is NUMBER
    }

    /// Registers the declared fields: a default person and one closed
    /// dialog unit per field.
    pub fn new() -> (app: PersonApp)
        ensures
            app.wf(),
            app.person.name@ == Seq::<char>::empty(),
            app.person.age == 0,
            app.person.location@ == Seq::<char>::empty(),
            app.person.counter == 0,
            !app.name_dialog.is_open(),
            !app.location_dialog.is_open(),
            !app.counter_dialog.is_open(),
            app.pickers@.len() == 0,
    {
        PersonApp {
            person: PersonResource::default(),
            name_dialog: FieldDialog::new(
                DialogConfig {
                    title: String::from_str("Name"),
                    input_type: DialogInputType::TEXT,
                    positive_action: String::from_str("Change"),
                    negative_action: String::from_str("Cancel"),
                },
            ),
            location_dialog: FieldDialog::new(
                DialogConfig {
                    title: String::from_str("Location"),
                    input_type: DialogInputType::TEXT,
                    positive_action: String::from_str("Change"),
                    negative_action: String::from_str("Cancel"),
                },
            ),
            counter_dialog: FieldDialog::new(
                DialogConfig {
                    title: String::from_str("This will be added to some random"),
                    input_type: DialogInputType::NUMBER,
                    positive_action: String::from_str("Randomize!"),
                    negative_action: String::from_str("Cancel"),
                },
            ),
            pickers: Vec::new(),
        }
    }

    /// One Update-phase pass over a drained aggregator queue: dispatch fans
    /// the events out, then each field's open system runs — so a trigger
    /// emitted this frame opens its dialog this frame — and the age handler
    /// consumes its triggers directly, one year per trigger.
    pub fn update(&mut self, events: &Vec<AppEvent>)
        requires
            old(self).wf(),
            old(self).person.age + grow_older_triggers(events@).len() <= u32::MAX,
        ensures
            final(self).wf(),
            // age: handled without any dialog
            final(self).person.age == old(self).person.age + grow_older_triggers(events@).len(),
            final(self).person.name@ == old(self).person.name@,
            final(self).person.location@ == old(self).person.location@,
            final(self).person.color == old(self).person.color,
            final(self).person.counter == old(self).person.counter,
            // name dialog
            name_triggers(events@).len() == 0 ==> final(self).name_dialog.windows@ == old(self).name_dialog.windows@,
            name_triggers(events@).len() > 0 ==> final(self).name_dialog.is_open() && final(self).name_dialog.window().event == name_triggers(events@).last() && final(self).name_dialog.window().input@ == Seq::<char>::empty(),
            // location dialog
            location_triggers(events@).len() == 0 ==> final(self).location_dialog.windows@ == old(self).location_dialog.windows@,
            location_triggers(events@).len() > 0 ==> final(self).location_dialog.is_open()
                && final(self).location_dialog.window().event == location_triggers(events@).last()
                && final(self).location_dialog.window().input@ == Seq::<char>::empty(),
            // counter dialog
            counter_triggers(events@).len() == 0 ==> final(self).counter_dialog.windows@ == old(self).counter_dialog.windows@,
            counter_triggers(events@).len() > 0 ==> final(self).counter_dialog.is_open() && final(self).counter_dialog.window().event == counter_triggers(events@).last() && final(self).counter_dialog.window().input@ == Seq::<char>::empty(),
            // picker
            picker_triggers(events@).len() == 0 ==> final(self).pickers@ == old(self).pickers@,
            picker_triggers(events@).len() > 0 ==> final(self).pickers@.len() == 1 && final(self).pickers@[0].color == picker_triggers(events@).last().color,
            // configs are immutable after registration
            final(self).name_dialog.config == old(self).name_dialog.config,
            final(self).location_dialog.config == old(self).location_dialog.config,
            final(self).counter_dialog.config == old(self).counter_dialog.config,
    {
        let mut streams = TriggerStreams::new();
        on_track_event(events, &mut streams);
        open_dialog(&mut self.name_dialog, &streams.change_name);
        open_dialog(&mut self.location_dialog, &streams.change_location);
        open_dialog(&mut self.counter_dialog, &streams.change_counter);
        open_color_picker(&mut self.pickers, &streams.open_color_picker);
        grow_older(&mut self.person, &streams.grow_older);
    }

    /// Positive confirm on the name dialog followed by the name handler:
    /// with a non-empty input, exactly one result is emitted and consumed,
    /// the input becomes the person's name and the window is destroyed.
    pub fn confirm_name(&mut self) -> (applied: bool)
        requires
            old(self).wf(),
            old(self).name_dialog.is_open(),
        ensures
            final(self).wf(),
            applied == old(self).name_dialog.accepts(),
            applied ==> final(self).person.name@ == old(self).name_dialog.window().input@ && !final(self).name_dialog.is_open(),
            !applied ==> final(self).person.name@ == old(self).person.name@ && final(self).name_dialog.windows@ == old(self).name_dialog.windows@,
            final(self).person.age == old(self).person.age,
            final(self).person.location@ == old(self).person.location@,
            final(self).person.color == old(self).person.color,
            final(self).person.counter == old(self).person.counter,
            final(self).name_dialog.config == old(self).name_dialog.config,
    {
        match confirm_positive(&mut self.name_dialog) {
            Some(r) => {
                let mut results = Vec::new();
                results.push(r);
                change_name(&mut self.person, &results);
                true
            },
            None => false,
        }
    }

    /// Positive confirm on the location dialog followed by its handler.
    pub fn confirm_location(&mut self) -> (applied: bool)
        requires
            old(self).wf(),
            old(self).location_dialog.is_open(),
        ensures
            final(self).wf(),
            applied == old(self).location_dialog.accepts(),
            applied ==> final(self).person.location@ == old(self).location_dialog.window().input@
                && !final(self).location_dialog.is_open(),
            !applied ==> final(self).person.location@ == old(self).person.location@ && final(self).location_dialog.windows@ == old(self).location_dialog.windows@,
            final(self).person.name@ == old(self).person.name@,
            final(self).person.age == old(self).person.age,
            final(self).person.color == old(self).person.color,
            final(self).person.counter == old(self).person.counter,
            final(self).location_dialog.config == old(self).location_dialog.config,
    {
        match confirm_positive(&mut self.location_dialog) {
            Some(r) => {
                let mut results = Vec::new();
                results.push(r);
                change_location(&mut self.person, &results);
                true
            },
            None => false,
        }
    }

    /// Positive confirm on the counter dialog followed by its handler: with
    /// an input that parses, the counter becomes the trigger's counter plus
    /// a fresh random offset in [1, 100) plus the parsed input.
    pub fn confirm_counter(&mut self) -> (applied: bool)
        requires
            old(self).wf(),
            old(self).counter_dialog.is_open(),
            parses_as_u32(old(self).counter_dialog.window().input@) ==> old(self).counter_dialog.window().event.counter + 99 + dec_value(
                old(self).counter_dialog.window().input@,
            ) <= u32::MAX,
        ensures
            final(self).wf(),
            applied == old(self).counter_dialog.accepts(),
            applied ==> !final(self).counter_dialog.is_open() && exists|off: int|
                #[trigger] counter_outcome(
                    old(self).counter_dialog.window().event.counter,
                    off,
                    old(self).counter_dialog.window().input@,
                    final(self).person.counter,
                ),
            !applied ==> final(self).person.counter == old(self).person.counter && final(self).counter_dialog.windows@ == old(self).counter_dialog.windows@,
            final(self).person.name@ == old(self).person.name@,
            final(self).person.age == old(self).person.age,
            final(self).person.location@ == old(self).person.location@,
            final(self).person.color == old(self).person.color,
            final(self).counter_dialog.config == old(self).counter_dialog.config,
    {
        match confirm_positive(&mut self.counter_dialog) {
            Some(r) => {
                let mut results = Vec::new();
                results.push(r);
                proof {
                    assert(results@.len() == 1);
                    assert(results@.last() == results@[0]);
                    assert(parses_as_u32(results@[0].result@));
                    assert(last_accepted(results@) == 0);
                }
                change_counter(&mut self.person, &results);
                proof {
                    let off0 = choose|off: int|
                        counter_outcome(
                            results@[0].event.counter,
                            off,
                            results@[0].result@,
                            self.person.counter,
                        );
                    assert(counter_outcome(
                        old(self).counter_dialog.window().event.counter,
                        off0,
                        old(self).counter_dialog.window().input@,
                        self.person.counter,
                    ));
                }
                true
            },
            None => false,
        }
    }

    /// The negative button or the host's close affordance on a dialog
    /// field; destroys the window, the person is untouched.
    pub fn dismiss_name(&mut self)
        requires
            old(self).wf(),
        ensures
            final(self).wf(),
            !final(self).name_dialog.is_open(),
            final(self).person == old(self).person,
            final(self).name_dialog.config == old(self).name_dialog.config,
    {
        close_dialog(&mut self.name_dialog);
    }

    /// The negative button or the host's close affordance on the location
    /// dialog.
    pub fn dismiss_location(&mut self)
        requires
            old(self).wf(),
        ensures
            final(self).wf(),
            !final(self).location_dialog.is_open(),
            final(self).person == old(self).person,
            final(self).location_dialog.config == old(self).location_dialog.config,
    {
        close_dialog(&mut self.location_dialog);
    }

    /// The negative button or the host's close affordance on the counter
    /// dialog.
    pub fn dismiss_counter(&mut self)
        requires
            old(self).wf(),
        ensures
            final(self).wf(),
            !final(self).counter_dialog.is_open(),
            final(self).person == old(self).person,
            final(self).counter_dialog.config == old(self).counter_dialog.config,
    {
        close_dialog(&mut self.counter_dialog);
    }

    /// Save on the picker: its color becomes the person's color and the
    /// picker is destroyed.
    pub fn save_picker(&mut self) -> (saved: bool)
        requires
            old(self).wf(),
        ensures
            final(self).wf(),
            saved == (old(self).pickers@.len() == 1),
            final(self).pickers@.len() == 0,
            saved ==> final(self).person.color == old(self).pickers@[0].color,
            !saved ==> final(self).person.color == old(self).person.color,
            final(self).person.name@ == old(self).person.name@,
            final(self).person.age == old(self).person.age,
            final(self).person.location@ == old(self).person.location@,
            final(self).person.counter == old(self).person.counter,
    {
        if self.pickers.len() == 1 {
            save_color(&mut self.person, &mut self.pickers);
            true
        } else {
            cancel_color(&mut self.pickers);
            false
        }
    }

    /// Cancel or host-close on the picker: destroys it without writing.
    pub fn cancel_picker(&mut self)
        requires
            old(self).wf(),
        ensures
            final(self).wf(),
            final(self).pickers@.len() == 0,
            final(self).person == old(self).person,
    {
        cancel_color(&mut self.pickers);
    }

    /// The per-frame editor write-back for the name dialog.
    pub fn edit_name(&mut self, raw: &str)
        requires
            old(self).wf(),
            old(self).name_dialog.is_open(),
        ensures
            final(self).wf(),
            final(self).name_dialog.is_open(),
            final(self).name_dialog.window().event == old(self).name_dialog.window().event,
            final(self).name_dialog.window().input@ == raw@,
            final(self).person == old(self).person,
            final(self).name_dialog.config == old(self).name_dialog.config,
    {
        set_input(&mut self.name_dialog, raw);
    }

    /// The per-frame editor write-back for the location dialog.
    pub fn edit_location(&mut self, raw: &str)
        requires
            old(self).wf(),
            old(self).location_dialog.is_open(),
        ensures
            final(self).wf(),
            final(self).location_dialog.is_open(),
            final(self).location_dialog.window().event == old(self).location_dialog.window().event,
            final(self).location_dialog.window().input@ == raw@,
            final(self).person == old(self).person,
            final(self).location_dialog.config == old(self).location_dialog.config,
    {
        set_input(&mut self.location_dialog, raw);
    }

    /// The per-frame editor write-back for the counter dialog: the NUMBER
    /// filter runs on the raw text.
    pub fn edit_counter(&mut self, raw: &str)
        requires
            old(self).wf(),
            old(self).counter_dialog.is_open(),
        ensures
            final(self).wf(),
            final(self).counter_dialog.is_open(),
            final(self).counter_dialog.window().event == old(self).counter_dialog.window().event,
            final(self).counter_dialog.window().input@ == crate::numeric::number_filtered(raw@),
            final(self).person == old(self).person,
            final(self).counter_dialog.config == old(self).counter_dialog.config,
    {
        set_input(&mut self.counter_dialog, raw);
    }
}

} // verus!
