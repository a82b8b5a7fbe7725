//! End-to-end scenarios: aggregator events through dispatch, dialog
//! lifecycle, confirmation and the field handlers, on concrete values.

use person_events::change_color::apply_color_edit;
use person_events::color::{hex_readout, LinearRgba};
use person_events::dialog::DialogResult;
use person_events::events::{
    AppEvent, ChangeCounterEvent, ChangeLocationEvent, ChangeNameEvent, GrowOlderEvent,
    OpenColorPickerEvent,
};
use person_events::handlers::apply_counter_result;
use person_events::kernel::PersonApp;

#[test]
fn change_name_flow() {
    let mut app = PersonApp::new();
    assert_eq!(app.person.name, "");
    let events = vec![AppEvent::ChangeName(ChangeNameEvent)];
    app.update(&events);
    assert_eq!(app.name_dialog.windows.len(), 1);
    app.edit_name("Ada");
    let applied = app.confirm_name();
    assert!(applied);
    assert_eq!(app.person.name, "Ada");
    assert_eq!(app.name_dialog.windows.len(), 0);
}

#[test]
fn grow_older_twice() {
    let mut app = PersonApp::new();
    app.person.age = 7;
    let events = vec![
        AppEvent::GrowOlder(GrowOlderEvent),
        AppEvent::GrowOlder(GrowOlderEvent),
    ];
    app.update(&events);
    assert_eq!(app.person.age, 9);
    assert_eq!(app.name_dialog.windows.len(), 0);
    assert_eq!(app.location_dialog.windows.len(), 0);
    assert_eq!(app.counter_dialog.windows.len(), 0);
    assert_eq!(app.pickers.len(), 0);
}

#[test]
fn supersede_dialog() {
    let mut app = PersonApp::new();
    app.update(&vec![AppEvent::ChangeLocation(ChangeLocationEvent)]);
    assert_eq!(app.location_dialog.windows.len(), 1);
    app.edit_location("half-typed");
    app.update(&vec![AppEvent::ChangeLocation(ChangeLocationEvent)]);
    assert_eq!(app.location_dialog.windows.len(), 1);
    assert_eq!(app.location_dialog.windows[0].input, "");
}

fn rgba(r: f32, g: f32, b: f32, a: f32) -> LinearRgba {
    LinearRgba {
        red: r.to_bits(),
        green: g.to_bits(),
        blue: b.to_bits(),
        alpha: a.to_bits(),
    }
}

#[test]
fn cancel_color() {
    let mut app = PersonApp::new();
    app.person.color = rgba(0.1, 0.2, 0.3, 1.0);
    let seed = app.person.color;
    app.update(&vec![AppEvent::OpenColorPicker(OpenColorPickerEvent { color: seed })]);
    assert_eq!(app.pickers.len(), 1);
    let edited = [
        0.9f32.to_bits(),
        0.9f32.to_bits(),
        0.9f32.to_bits(),
        1.0f32.to_bits(),
    ];
    apply_color_edit(&mut app.pickers[0], &edited);
    app.cancel_picker();
    assert_eq!(app.person.color, rgba(0.1, 0.2, 0.3, 1.0));
    assert_eq!(app.pickers.len(), 0);
}

#[test]
fn save_color() {
    let mut app = PersonApp::new();
    app.person.color = rgba(0.1, 0.2, 0.3, 1.0);
    let seed = app.person.color;
    app.update(&vec![AppEvent::OpenColorPicker(OpenColorPickerEvent { color: seed })]);
    assert_eq!(app.pickers.len(), 1);
    let edited = [
        0.9f32.to_bits(),
        0.9f32.to_bits(),
        0.9f32.to_bits(),
        1.0f32.to_bits(),
    ];
    apply_color_edit(&mut app.pickers[0], &edited);
    let saved = app.save_picker();
    assert!(saved);
    assert_eq!(app.person.color, rgba(0.9, 0.9, 0.9, 1.0));
    assert_eq!(app.pickers.len(), 0);
}

#[test]
fn counter_randomize_stubbed_offset() {
    let mut app = PersonApp::new();
    app.person.counter = 10;
    app.update(&vec![AppEvent::ChangeCounter(ChangeCounterEvent { counter: 10 })]);
    assert_eq!(app.counter_dialog.windows.len(), 1);
    app.edit_counter("5");
    let window = &app.counter_dialog.windows[0];
    let result = DialogResult {
        event: window.event,
        result: window.input.clone(),
    };
    let applied = apply_counter_result(&mut app.person, &result, 42);
    assert!(applied);
    assert_eq!(app.person.counter, 10 + 42 + 5);
}

#[test]
fn counter_randomize_live_offset() {
    let mut app = PersonApp::new();
    app.person.counter = 10;
    app.update(&vec![AppEvent::ChangeCounter(ChangeCounterEvent { counter: 10 })]);
    app.edit_counter("5");
    let applied = app.confirm_counter();
    assert!(applied);
    assert_eq!(app.counter_dialog.windows.len(), 0);
    // counter = 10 + offset + 5 with offset drawn from [1, 100)
    assert!(app.person.counter >= 16);
    assert!(app.person.counter <= 114);
}

#[test]
fn hex_readout_example() {
    let colors = [
        1.0f32.to_bits(),
        0.5f32.to_bits(),
        0.0f32.to_bits(),
        1.0f32.to_bits(),
    ];
    assert_eq!(hex_readout(&colors), "#FF7F00");
}
