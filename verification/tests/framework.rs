//! Unit tests for the framework's pieces: the NUMBER filter, the decimal
//! parser, the channel byte and hex readout, the color round trip, the
//! dispatcher, and the dialog dismissal paths.

use person_events::change_color::{open_color_picker, ColorPicker};
use person_events::color::{array_to_color, channel_byte, color_to_array, hex_readout, LinearRgba};
use person_events::events::{
    on_track_event, AppEvent, ChangeCounterEvent, ChangeLocationEvent, ChangeNameEvent,
    GrowOlderEvent, OpenColorPickerEvent, TriggerStreams,
};
use person_events::kernel::PersonApp;
use person_events::numeric::{filter_number_input, parse_u32};
use person_events::person::PersonResource;

#[test]
fn number_filter_keeps_digits_dot_minus() {
    assert_eq!(filter_number_input("ab1.2-c3"), "1.2-3");
    assert_eq!(filter_number_input(""), "");
    assert_eq!(filter_number_input("hello"), "");
    assert_eq!(filter_number_input("0123456789"), "0123456789");
    // the filter is lenient: repeated dots and minus signs pass through
    assert_eq!(filter_number_input("..--"), "..--");
    assert_eq!(filter_number_input("-1.5e3"), "-1.53");
}

#[test]
fn number_filter_idempotent_on_examples() {
    for s in ["a-b.c12", "x9y8z7", "", "..--", "no digits at all"] {
        let once = filter_number_input(s);
        let twice = filter_number_input(&once);
        assert_eq!(once, twice);
    }
}

#[test]
fn parse_accepts_digit_strings() {
    assert_eq!(parse_u32("5"), Some(5));
    assert_eq!(parse_u32("007"), Some(7));
    assert_eq!(parse_u32("0"), Some(0));
    assert_eq!(parse_u32("4294967295"), Some(u32::MAX));
}

#[test]
fn parse_rejects_malformed_input() {
    assert_eq!(parse_u32(""), None);
    assert_eq!(parse_u32("-"), None);
    assert_eq!(parse_u32("-5"), None);
    assert_eq!(parse_u32("1.5"), None);
    assert_eq!(parse_u32("4294967296"), None);
    assert_eq!(parse_u32("99999999999999"), None);
}

#[test]
fn channel_byte_is_floor_of_255_times_value() {
    for f in [0.0f32, 0.1, 0.25, 0.333, 0.5, 0.7, 0.999999, 1.0] {
        let expected = ((f as f64) * 255.0).floor() as u8;
        assert_eq!(channel_byte(f.to_bits()), expected, "channel {f}");
    }
    // subnormal patterns floor to zero
    assert_eq!(channel_byte(1), 0);
    assert_eq!(channel_byte(0x007F_FFFF), 0);
}

#[test]
fn hex_readout_edges() {
    let black = [0u32, 0, 0, 1.0f32.to_bits()];
    assert_eq!(hex_readout(&black), "#000000");
    let white = [
        1.0f32.to_bits(),
        1.0f32.to_bits(),
        1.0f32.to_bits(),
        1.0f32.to_bits(),
    ];
    assert_eq!(hex_readout(&white), "#FFFFFF");
}

#[test]
fn color_array_round_trip() {
    let c = LinearRgba {
        red: 0.12f32.to_bits(),
        green: 0.34f32.to_bits(),
        blue: 0.56f32.to_bits(),
        alpha: 0.78f32.to_bits(),
    };
    let a = color_to_array(&c);
    assert_eq!(array_to_color(&a), c);
}

#[test]
fn dispatcher_fans_out_in_order() {
    let events = vec![
        AppEvent::ChangeName(ChangeNameEvent),
        AppEvent::GrowOlder(GrowOlderEvent),
        AppEvent::ChangeCounter(ChangeCounterEvent { counter: 3 }),
        AppEvent::ChangeName(ChangeNameEvent),
        AppEvent::ChangeLocation(ChangeLocationEvent),
        AppEvent::ChangeCounter(ChangeCounterEvent { counter: 9 }),
    ];
    let mut streams = TriggerStreams::new();
    on_track_event(&events, &mut streams);
    assert_eq!(streams.change_name.len(), 2);
    assert_eq!(streams.grow_older.len(), 1);
    assert_eq!(streams.change_location.len(), 1);
    assert_eq!(streams.open_color_picker.len(), 0);
    assert_eq!(
        streams.change_counter,
        vec![
            ChangeCounterEvent { counter: 3 },
            ChangeCounterEvent { counter: 9 }
        ]
    );
    let total = streams.change_name.len() + streams.grow_older.len()
        + streams.change_location.len() + streams.open_color_picker.len()
        + streams.change_counter.len();
    assert_eq!(total, events.len());
}

#[test]
fn empty_input_keeps_window_open() {
    let mut app = PersonApp::new();
    app.update(&vec![AppEvent::ChangeName(ChangeNameEvent)]);
    let applied = app.confirm_name();
    assert!(!applied);
    assert_eq!(app.name_dialog.windows.len(), 1);
    assert_eq!(app.person.name, "");
}

#[test]
fn malformed_number_keeps_window_open() {
    let mut app = PersonApp::new();
    app.person.counter = 4;
    app.update(&vec![AppEvent::ChangeCounter(ChangeCounterEvent { counter: 4 })]);
    app.edit_counter("-");
    let applied = app.confirm_counter();
    assert!(!applied);
    assert_eq!(app.counter_dialog.windows.len(), 1);
    assert_eq!(app.person.counter, 4);
    app.edit_counter("1.5");
    assert!(!app.confirm_counter());
    assert_eq!(app.counter_dialog.windows.len(), 1);
}

#[test]
fn number_dialog_filters_editor_text() {
    let mut app = PersonApp::new();
    app.update(&vec![AppEvent::ChangeCounter(ChangeCounterEvent { counter: 0 })]);
    app.edit_counter("x4y2z");
    assert_eq!(app.counter_dialog.windows[0].input, "42");
}

#[test]
fn negative_button_discards_input() {
    let mut app = PersonApp::new();
    app.person.name = String::from("Grace");
    app.update(&vec![AppEvent::ChangeName(ChangeNameEvent)]);
    app.edit_name("Ada");
    app.dismiss_name();
    assert_eq!(app.name_dialog.windows.len(), 0);
    assert_eq!(app.person.name, "Grace");
}

#[test]
fn picker_supersedes_and_is_titled() {
    let mut pickers: Vec<ColorPicker> = Vec::new();
    let first = OpenColorPickerEvent {
        color: LinearRgba { red: 0, green: 0, blue: 0, alpha: 0 },
    };
    let second = OpenColorPickerEvent {
        color: LinearRgba {
            red: 1.0f32.to_bits(),
            green: 0,
            blue: 0,
            alpha: 1.0f32.to_bits(),
        },
    };
    open_color_picker(&mut pickers, &vec![first]);
    open_color_picker(&mut pickers, &vec![second]);
    assert_eq!(pickers.len(), 1);
    assert_eq!(pickers[0].title, "Change Color");
    assert_eq!(pickers[0].color, second.color);
}

#[test]
fn default_person_record() {
    let p = PersonResource::default();
    assert_eq!(p.name, "");
    assert_eq!(p.age, 0);
    assert_eq!(p.location, "");
    assert_eq!(p.counter, 0);
    // opaque black: zero color channels, alpha one
    assert_eq!(
        p.color,
        LinearRgba { red: 0, green: 0, blue: 0, alpha: 1.0f32.to_bits() }
    );
}

#[test]
fn change_location_flow() {
    let mut app = PersonApp::new();
    app.update(&vec![AppEvent::ChangeLocation(ChangeLocationEvent)]);
    app.edit_location("Lovelace Lane");
    let applied = app.confirm_location();
    assert!(applied);
    assert_eq!(app.person.location, "Lovelace Lane");
    assert_eq!(app.location_dialog.windows.len(), 0);
}
