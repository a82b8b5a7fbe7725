//! The single person record the framework edits. It is written only by the
//! field handlers and the picker's save path; every write replaces exactly
//! one field and leaves the others as they were.

use vstd::prelude::*;
use crate::color::LinearRgba;

verus! {

/// The singleton person record: {name, age, location, color, counter}.
pub struct PersonResource {
    pub name: String,
    pub age: u32,
    pub location: String,
    pub color: LinearRgba,
    pub counter: u32,
}

impl Default for PersonResource {
    /// Empty strings, zero age and counter, opaque black.
    fn default() -> (p: Self)
        ensures
            p.name@ == Seq::<char>::empty(),
            p.age == 0,
            p.location@ == Seq::<char>::empty(),
            p.color == LinearRgba::spec_opaque_black(),
            p.counter == 0,
    {
        PersonResource {
            name: String::new(),
            age: 0,
            location: String::new(),
            color: LinearRgba::opaque_black(),
            counter: 0,
        }
    }
}

} // verus!
