//! The per-field result consumers. Each drains its result queue in emission
//! order and applies it to the person record, touching exactly its own
//! field: name and location store the confirmed string (last one wins), age
//! grows by one per trigger, and the counter adds a fresh uniform random
//! offset in [1, 100) plus the parsed result to the trigger's counter.

use vstd::prelude::*;
use rand::Rng;
use crate::dialog::DialogResult;
use crate::events::{ChangeCounterEvent, ChangeLocationEvent, ChangeNameEvent, GrowOlderEvent};
use crate::numeric::{dec_value, parse_u32, parses_as_u32};
use crate::person::PersonResource;

verus! {

/// The name handler: the last confirmed result becomes the person's name.
pub fn change_name(person: &mut PersonResource, results: &Vec<DialogResult<ChangeNameEvent>>)
    ensures
        results@.len() == 0 ==> final(person).name@ == old(person).name@,
        results@.len() > 0 ==> final(person).name@ == results@.last().result@,
        final(person).age == old(person).age,
        final(person).location@ == old(person).location@,
        final(person).color == old(person).color,
        final(person).counter == old(person).counter,
{
    let n = results.len();
    let mut i: usize = 0;
    while i < n
        invariant
            n == results@.len(),
            i <= n,
            i == 0 ==> person.name@ == old(person).name@,
            i > 0 ==> person.name@ == results@[i - 1].result@,
            person.age == old(person).age,
            person.location@ == old(person).location@,
            person.color == old(person).color,
            person.counter == old(person).counter,
        decreases n - i,
    {
        person.name = results[i].result.clone();
        i = i + 1;
    }
}

/// The location handler: the last confirmed result becomes the location.
pub fn change_location(
    person: &mut PersonResource,
    results: &Vec<DialogResult<ChangeLocationEvent>>,
)
    ensures
        results@.len() == 0 ==> final(person).location@ == old(person).location@,
        results@.len() > 0 ==> final(person).location@ == results@.last().result@,
        final(person).name@ == old(person).name@,
        final(person).age == old(person).age,
        final(person).color == old(person).color,
        final(person).counter == old(person).counter,
{
    let n = results.len();
    let mut i: usize = 0;
    while i < n
        invariant
            n == results@.len(),
            i <= n,
            i == 0 ==> person.location@ == old(person).location@,
            i > 0 ==> person.location@ == results@[i - 1].result@,
            person.name@ == old(person).name@,
            person.age == old(person).age,
            person.color == old(person).color,
            person.counter == old(person).counter,
        decreases n - i,
    {
        person.location = results[i].result.clone();
        i = i + 1;
    }
}

/// The age handler: each trigger ages the person by exactly one year.
pub fn grow_older(person: &mut PersonResource, events: &Vec<GrowOlderEvent>)
    requires
        old(person).age + events@.len() <= u32::MAX,
    ensures
        final(person).age == old(person).age + events@.len(),
        final(person).name@ == old(person).name@,
        final(person).location@ == old(person).location@,
        final(person).color == old(person).color,
        final(person).counter == old(person).counter,
{
    let n = events.len();
    let mut i: usize = 0;
    while i < n
        invariant
            n == events@.len(),
            i <= n,
            old(person).age + n <= u32::MAX,
            person.age == old(person).age + i,
            person.name@ == old(person).name@,
            person.location@ == old(person).location@,
            person.color == old(person).color,
            person.counter == old(person).counter,
        decreases n - i,
    {
        person.age = person.age + 1;
        i = i + 1;
    }
}

/// Relies on `rand::thread_rng` and `rand::Rng::gen_range` over the range
/// `1..100`: a draw from a non-empty integer range lies within it.
#[verifier::external_body]
fn random_counter_offset() -> (r: u32)
    ensures
        1 <= r < 100,
{
    rand::thread_rng().gen_range(1..100)
}

/// One possible outcome of applying a counter result: the trigger's counter
/// plus some random offset in [1, 100) plus the parsed result string.
pub open spec fn counter_outcome(seed: u32, off: int, result: Seq<char>, counter: u32) -> bool {
    1 <= off < 100 && counter == seed + off + dec_value(result)
}

/// The counter result a handler pass leaves in charge: the index of the
/// last result whose string parses, or -1 when none does.
pub open spec fn last_accepted(rs: Seq<DialogResult<ChangeCounterEvent>>) -> int
    decreases rs.len(),
{
    if rs.len() == 0 {
        -1
    } else if parses_as_u32(rs.last().result@) {
        rs.len() - 1
    } else {
        last_accepted(rs.drop_last())
    }
}

/// The deterministic part of the counter handler, with the random offset an
/// argument: a result whose string parses sets the counter to trigger
/// counter + offset + parsed value; one that does not parse is a validation
/// error and changes nothing.
pub fn apply_counter_result(
    person: &mut PersonResource,
    result: &DialogResult<ChangeCounterEvent>,
    offset: u32,
) -> (applied: bool)
    requires
        1 <= offset < 100,
        parses_as_u32(result.result@) ==> result.event.counter + 99 + dec_value(result.result@)
            <= u32::MAX,
    ensures
        applied == parses_as_u32(result.result@),
        applied ==> final(person).counter == result.event.counter + offset + dec_value(
            result.result@,
        ),
        !applied ==> final(person).counter == old(person).counter,
        final(person).name@ == old(person).name@,
        final(person).age == old(person).age,
        final(person).location@ == old(person).location@,
        final(person).color == old(person).color,
{
    match parse_u32(result.result.as_str()) {
        Some(v) => {
            person.counter = result.event.counter + offset + v;
            true
        },
        None => false,
    }
}

/// The counter handler: drains the results in order, drawing a fresh random
/// offset per result. Afterwards the counter reflects the last result that
/// parsed — its trigger's counter plus some offset in [1, 100) plus its
/// parsed value — and is untouched when none parsed.
pub fn change_counter(
    person: &mut PersonResource,
    results: &Vec<DialogResult<ChangeCounterEvent>>,
)
    requires
        forall|i: int|
            0 <= i < results@.len() ==> (parses_as_u32(#[trigger] results@[i].result@)
                ==> results@[i].event.counter + 99 + dec_value(results@[i].result@) <= u32::MAX),
    ensures
        last_accepted(results@) == -1 ==> final(person).counter == old(person).counter,
        last_accepted(results@) >= 0 ==> exists|off: int|
            #[trigger] counter_outcome(
                results@[last_accepted(results@)].event.counter,
                off,
                results@[last_accepted(results@)].result@,
                final(person).counter,
            ),
        final(person).name@ == old(person).name@,
        final(person).age == old(person).age,
        final(person).location@ == old(person).location@,
        final(person).color == old(person).color,
{
    let n = results.len();
    let mut i: usize = 0;
    while i < n
        invariant
            n == results@.len(),
            i <= n,
            forall|j: int|
                0 <= j < results@.len() ==> (parses_as_u32(#[trigger] results@[j].result@)
                    ==> results@[j].event.counter + 99 + dec_value(results@[j].result@)
                    <= u32::MAX),
            last_accepted(results@.take(i as int)) == -1 ==> person.counter == old(person).counter,
            last_accepted(results@.take(i as int)) >= 0 ==> exists|off: int|
                #[trigger] counter_outcome(
                    results@[last_accepted(results@.take(i as int))].event.counter,
                    off,
                    results@[last_accepted(results@.take(i as int))].result@,
                    person.counter,
                ),
            person.name@ == old(person).name@,
            person.age == old(person).age,
            person.location@ == old(person).location@,
            person.color == old(person).color,
        decreases n - i,
    {
        let offset = random_counter_offset();
        let applied = apply_counter_result(person, &results[i], offset);
        proof {
            assert(results@.take(i + 1).drop_last() =~= results@.take(i as int));
            assert(results@.take(i + 1).last() == results@[i as int]);
            if applied {
                assert(last_accepted(results@.take(i + 1)) == i);
                assert(counter_outcome(
                    results@[i as int].event.counter,
                    offset as int,
                    results@[i as int].result@,
                    person.counter,
                ));
            }
        }
        i = i + 1;
    }
    proof {
        assert(results@.take(n as int) =~= results@);
    }
}

} // verus!
