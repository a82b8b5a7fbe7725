//! The color picker: a specialised modal bound to the color field. It does
//! not use the text-dialog path; the Save button writes the picker's color
//! into the person record directly, Cancel and host-close discard it.

use vstd::prelude::*;
use crate::color::{array_to_color, spec_color_of_array, LinearRgba};
use crate::events::OpenColorPickerEvent;
use crate::person::PersonResource;

verus! {

/// A live picker window: its title and the color it currently holds.
pub struct ColorPicker {
    pub title: String,
    pub color: LinearRgba,
}

/// The picker's open system: for each pending trigger, discard any picker
/// already open and spawn a fresh one seeded with the trigger's color. After
/// a non-empty batch exactly one picker exists, from the last trigger.
pub fn open_color_picker(pickers: &mut Vec<ColorPicker>, events: &Vec<OpenColorPickerEvent>)
    requires
        old(pickers)@.len() <= 1,
    ensures
        final(pickers)@.len() <= 1,
        events@.len() == 0 ==> final(pickers)@ == old(pickers)@,
        events@.len() > 0 ==> final(pickers)@.len() == 1 && final(pickers)@[0].color
            == events@.last().color && final(pickers)@[0].title@ == "Change Color"@,
{
    let n = events.len();
    let mut i: usize = 0;
    while i < n
        invariant
            n == events@.len(),
            i <= n,
            pickers@.len() <= 1,
            i == 0 ==> pickers@ == old(pickers)@,
            i > 0 ==> pickers@.len() == 1 && pickers@[0].color == events@[i - 1].color
                && pickers@[0].title@ == "Change Color"@,
        decreases n - i,
    {
        pickers.clear();
        pickers.push(
            ColorPicker { title: String::from_str("Change Color"), color: events[i].color },
        );
        i = i + 1;
    }
}

/// The per-frame write-back of the picker's edit control: the color read
/// back from the edited four-channel array replaces the picker's color, so
/// the value Save would store always tracks the control.
pub fn apply_color_edit(picker: &mut ColorPicker, edited: &[u32; 4])
    ensures
        final(picker).color == spec_color_of_array(edited@),
        final(picker).title@ == old(picker).title@,
{
    picker.color = array_to_color(edited);
}

/// The Save button: write the picker's color into the person record —
/// touching no other field — and destroy the picker.
pub fn save_color(person: &mut PersonResource, pickers: &mut Vec<ColorPicker>)
    requires
        old(pickers)@.len() == 1,
    ensures
        final(pickers)@.len() == 0,
        final(person).color == old(pickers)@[0].color,
        final(person).name@ == old(person).name@,
        final(person).age == old(person).age,
        final(person).location@ == old(person).location@,
        final(person).counter == old(person).counter,
{
    person.color = pickers[0].color;
    pickers.clear();
}

/// The Cancel button and the host's close affordance: destroy the picker
/// without writing anything.
pub fn cancel_color(pickers: &mut Vec<ColorPicker>)
    ensures
        final(pickers)@.len() == 0,
{
    pickers.clear();
}

} // verus!
