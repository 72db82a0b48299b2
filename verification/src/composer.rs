//! Composition of a status snapshot: clone the template, merge the current
//! sensor readings, run the modifier chain, hand back the finished snapshot.
//!
//! A read always yields a snapshot. When the backing store cannot deliver a
//! sensor kind, that kind is merged as "no readings" and the composition goes
//! on — sensor history being unavailable never fails a read request.

use vstd::prelude::*;

use crate::api::{
    seq_view, PeopleNowPresentSensor, PeopleNowPresentSensorView, Sensors, SensorsView, Status,
    StatusView, TemperatureSensor, TemperatureSensorView,
};
use crate::modifiers::{apply_modifiers, ModifierChain, StatusModifier};
use crate::store::SensorStore;
use crate::template::StatusTemplate;

verus! {

/// The backing store could not be reached, or timed out. Recoverable: a read
/// degrades the affected sensor kind to absent; a write surfaces it to the
/// caller, who must learn that the reading did not persist.
#[derive(Debug, PartialEq)]
pub struct StoreUnavailable;

/// What a fetch of people-now-present readings contributes to the merge: its
/// readings, or none when the store was unavailable.
pub open spec fn people_fetch_view(
    r: Result<Vec<PeopleNowPresentSensor>, StoreUnavailable>,
) -> Seq<PeopleNowPresentSensorView> {
    match r {
        Ok(v) => seq_view(v@),
        Err(_) => Seq::<PeopleNowPresentSensorView>::empty(),
    }
}

/// What a fetch of temperature readings contributes to the merge: its
/// readings, or none when the store was unavailable.
pub open spec fn temperature_fetch_view(
    r: Result<Vec<TemperatureSensor>, StoreUnavailable>,
) -> Seq<TemperatureSensorView> {
    match r {
        Ok(v) => seq_view(v@),
        Err(_) => Seq::<TemperatureSensorView>::empty(),
    }
}

/// The template with the fetched readings attached. When no kind has any
/// reading, `sensors` stays wholly absent — never an empty container.
pub open spec fn merge_sensors(
    t: StatusView,
    people_now_present: Seq<PeopleNowPresentSensorView>,
    temperature: Seq<TemperatureSensorView>,
) -> StatusView {
    StatusView {
        sensors: if people_now_present.len() == 0 && temperature.len() == 0 {
            None
        } else {
            Some(SensorsView { people_now_present, temperature })
        },
        ..t
    }
}

/// The composed snapshot: the template, the merged readings, then every
/// modifier in registration order.
pub open spec fn compose_spec<M: StatusModifier>(
    t: StatusView,
    people_now_present: Seq<PeopleNowPresentSensorView>,
    temperature: Seq<TemperatureSensorView>,
    steps: Seq<M>,
) -> StatusView {
    apply_modifiers(steps, merge_sensors(t, people_now_present, temperature))
}

/// Composes a snapshot from already-fetched readings. A fetch that failed
/// contributes no readings; the composition itself always succeeds.
pub fn compose_from_fetches<M: StatusModifier>(
    template: &StatusTemplate,
    people_now_present: Result<Vec<PeopleNowPresentSensor>, StoreUnavailable>,
    temperature: Result<Vec<TemperatureSensor>, StoreUnavailable>,
    chain: &ModifierChain<M>,
) -> (r: Status)
    ensures
        r@ == compose_spec(
            template@,
            people_fetch_view(people_now_present),
            temperature_fetch_view(temperature),
            chain.steps@,
        ),
{
    let ghost pnp_fetched: Seq<PeopleNowPresentSensorView> = people_fetch_view(
        people_now_present,
    );
    let ghost temp_fetched: Seq<TemperatureSensorView> = temperature_fetch_view(temperature);
    let mut status = template.base_status();
    let pnp: Vec<PeopleNowPresentSensor> = match people_now_present {
        Ok(v) => v,
        Err(_) => Vec::new(),
    };
    let temp: Vec<TemperatureSensor> = match temperature {
        Ok(v) => v,
        Err(_) => Vec::new(),
    };
    proof {
        assert(seq_view(pnp@) =~= pnp_fetched);
        assert(seq_view(temp@) =~= temp_fetched);
    }
    if pnp.len() > 0 || temp.len() > 0 {
        status.sensors = Some(Sensors { people_now_present: pnp, temperature: temp });
    }
    proof {
        assert(status@ =~= merge_sensors(template@, pnp_fetched, temp_fetched));
    }
    chain.apply_all(&mut status);
    status
}

/// Composes a snapshot from the template, the current store contents and the
/// modifier chain. The template and the store are only read; all mutation is
/// confined to the fresh snapshot.
pub fn compose<M: StatusModifier>(
    template: &StatusTemplate,
    store: &SensorStore,
    chain: &ModifierChain<M>,
) -> (r: Status)
    ensures
        r@ == compose_spec(
            template@,
            store@.people_now_present,
            store@.temperature,
            chain.steps@,
        ),
{
    let pnp = store.get_people_now_present();
    let temp = store.get_temperature();
    compose_from_fetches(template, Ok(pnp), Ok(temp), chain)
}

/// Law: composition is deterministic in the template, the readings and the
/// chain — two snapshots composed from the same inputs, with no intervening
/// write, are field-for-field identical.
pub proof fn lemma_compose_idempotent<M: StatusModifier>(
    t: StatusView,
    people_now_present: Seq<PeopleNowPresentSensorView>,
    temperature: Seq<TemperatureSensorView>,
    steps: Seq<M>,
    first: StatusView,
    second: StatusView,
)
    requires
        first == compose_spec(t, people_now_present, temperature, steps),
        second == compose_spec(t, people_now_present, temperature, steps),
    ensures
        first == second,
{
}

/// Law: a backing-store failure while reading a sensor kind degrades exactly
/// that kind to "no readings"; the snapshot is still composed, and when no
/// kind has readings the sensors container is wholly absent.
pub proof fn lemma_unavailable_read_degrades<M: StatusModifier>(
    t: StatusView,
    e: StoreUnavailable,
    temperature: Seq<TemperatureSensorView>,
    steps: Seq<M>,
)
    ensures
        people_fetch_view(Err(e)) == Seq::<PeopleNowPresentSensorView>::empty(),
        compose_spec(t, people_fetch_view(Err(e)), temperature, steps) == compose_spec(
            t,
            Seq::<PeopleNowPresentSensorView>::empty(),
            temperature,
            steps,
        ),
        merge_sensors(
            t,
            Seq::<PeopleNowPresentSensorView>::empty(),
            Seq::<TemperatureSensorView>::empty(),
        ).sensors is None,
{
}

} // verus!
