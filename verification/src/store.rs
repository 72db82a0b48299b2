//! The store of live sensor readings, keyed by sensor kind.
//!
//! Readings are pushed in over the process's life and read out, never
//! mutated, while a status is composed. Updates to distinct sensor kinds are
//! independent: a write to one kind leaves every other kind's readings
//! untouched.

use vstd::prelude::*;

use crate::api::{
    seq_view, PeopleNowPresentSensor, PeopleNowPresentSensorView, TemperatureSensor,
    TemperatureSensorView,
};

verus! {

/// Mathematical view of [`SensorStore`]: the recorded readings of each kind,
/// in order.
#[verifier::ext_equal]
pub struct SensorStoreView {
    pub people_now_present: Seq<PeopleNowPresentSensorView>,
    pub temperature: Seq<TemperatureSensorView>,
}

/// Whether some recorded people-now-present reading carries this name.
pub open spec fn has_people_reading_named(
    s: Seq<PeopleNowPresentSensorView>,
    n: Seq<char>,
) -> bool {
    exists|i: int| 0 <= i < s.len() && s[i].name == Some(n)
}

/// The position of the first people-now-present reading with this name;
/// meaningful only when one exists.
pub open spec fn first_people_reading_named(
    s: Seq<PeopleNowPresentSensorView>,
    n: Seq<char>,
) -> int
    decreases s.len(),
{
    if s.len() == 0 {
        0
    } else if s[0].name == Some(n) {
        0
    } else {
        1 + first_people_reading_named(s.drop_first(), n)
    }
}

/// Whether some recorded temperature reading carries this name.
pub open spec fn has_temperature_reading_named(
    s: Seq<TemperatureSensorView>,
    n: Seq<char>,
) -> bool {
    exists|i: int| 0 <= i < s.len() && s[i].name == Some(n)
}

/// The position of the first temperature reading with this name; meaningful
/// only when one exists.
pub open spec fn first_temperature_reading_named(
    s: Seq<TemperatureSensorView>,
    n: Seq<char>,
) -> int
    decreases s.len(),
{
    if s.len() == 0 {
        0
    } else if s[0].name == Some(n) {
        0
    } else {
        1 + first_temperature_reading_named(s.drop_first(), n)
    }
}

/// What recording a people-now-present reading does: a named reading replaces
/// the first recorded reading with the same name, or is appended when no
/// reading carries that name; an unnamed reading is appended.
pub open spec fn record_people_reading(
    before: Seq<PeopleNowPresentSensorView>,
    r: PeopleNowPresentSensorView,
) -> Seq<PeopleNowPresentSensorView> {
    match r.name {
        Some(n) => if has_people_reading_named(before, n) {
            before.update(first_people_reading_named(before, n), r)
        } else {
            before.push(r)
        },
        None => before.push(r),
    }
}

/// What recording a temperature reading does; the same identity rule as for
/// people-now-present readings.
pub open spec fn record_temperature_reading(
    before: Seq<TemperatureSensorView>,
    r: TemperatureSensorView,
) -> Seq<TemperatureSensorView> {
    match r.name {
        Some(n) => if has_temperature_reading_named(before, n) {
            before.update(first_temperature_reading_named(before, n), r)
        } else {
            before.push(r)
        },
        None => before.push(r),
    }
}

/// A reading found at position `i`, with no earlier reading of that name, is
/// the first reading of that name.
proof fn lemma_first_people_reading_named(
    s: Seq<PeopleNowPresentSensorView>,
    n: Seq<char>,
    i: int,
)
    requires
        0 <= i < s.len(),
        s[i].name == Some(n),
        forall|j: int| 0 <= j < i ==> s[j].name != Some(n),
    ensures
        has_people_reading_named(s, n),
        first_people_reading_named(s, n) == i,
    decreases i,
{
    if i == 0 {
    } else {
        assert(s[0].name != Some(n));
        assert(s.drop_first()[i - 1].name == Some(n));
        assert(forall|j: int| 0 <= j < i - 1 ==> s.drop_first()[j].name != Some(n));
        lemma_first_people_reading_named(s.drop_first(), n, i - 1);
    }
}

/// A reading found at position `i`, with no earlier reading of that name, is
/// the first reading of that name.
proof fn lemma_first_temperature_reading_named(
    s: Seq<TemperatureSensorView>,
    n: Seq<char>,
    i: int,
)
    requires
        0 <= i < s.len(),
        s[i].name == Some(n),
        forall|j: int| 0 <= j < i ==> s[j].name != Some(n),
    ensures
        has_temperature_reading_named(s, n),
        first_temperature_reading_named(s, n) == i,
    decreases i,
{
    if i == 0 {
    } else {
        assert(s[0].name != Some(n));
        assert(s.drop_first()[i - 1].name == Some(n));
        assert(forall|j: int| 0 <= j < i - 1 ==> s.drop_first()[j].name != Some(n));
        lemma_first_temperature_reading_named(s.drop_first(), n, i - 1);
    }
}

/// The store of live sensor readings, one ordered list per sensor kind.
pub struct SensorStore {
    pub people_now_present: Vec<PeopleNowPresentSensor>,
    pub temperature: Vec<TemperatureSensor>,
}

impl View for SensorStore {
    type V = SensorStoreView;

    open spec fn view(&self) -> SensorStoreView {
        SensorStoreView {
            people_now_present: seq_view(self.people_now_present@),
            temperature: seq_view(self.temperature@),
        }
    }
}

impl SensorStore {
    /// A store with no readings of any kind.
    pub fn new() -> (r: Self)
        ensures
            r@.people_now_present == Seq::<PeopleNowPresentSensorView>::empty(),
            r@.temperature == Seq::<TemperatureSensorView>::empty(),
    {
        let r = SensorStore { people_now_present: Vec::new(), temperature: Vec::new() };
        proof {
            assert(r@.people_now_present =~= Seq::<PeopleNowPresentSensorView>::empty());
            assert(r@.temperature =~= Seq::<TemperatureSensorView>::empty());
        }
        r
    }

    /// Records or replaces a people-now-present reading. The readings of
    /// every other sensor kind are left untouched.
    pub fn set_people_now_present(&mut self, reading: PeopleNowPresentSensor)
        ensures
            final(self)@.people_now_present == record_people_reading(
                old(self)@.people_now_present,
                reading@,
            ),
            final(self)@.temperature == old(self)@.temperature,
    {
        let ghost before: Seq<PeopleNowPresentSensorView> = self@.people_now_present;
        let is_named: bool = match &reading.name {
            Some(_) => true,
            None => false,
        };
        if is_named {
            let mut i: usize = 0;
            while i < self.people_now_present.len()
                invariant
                    0 <= i <= self.people_now_present@.len(),
                    is_named,
                    reading@.name is Some,
                    before == old(self)@.people_now_present,
                    self@.people_now_present == before,
                    self@.temperature == old(self)@.temperature,
                    forall|j: int| 0 <= j < i ==> before[j].name != reading@.name,
                decreases self.people_now_present@.len() - i,
            {
                let same_name: bool = match (&self.people_now_present[i].name, &reading.name) {
                    (Some(a), Some(b)) => a.eq(b),
                    _ => false,
                };
                proof {
                    assert(before[i as int] == self.people_now_present@[i as int]@);
                    assert(same_name <==> before[i as int].name == reading@.name);
                }
                if same_name {
                    proof {
                        lemma_first_people_reading_named(
                            before,
                            reading@.name.unwrap(),
                            i as int,
                        );
                    }
                    self.people_now_present[i] = reading;
                    proof {
                        assert(before == old(self)@.people_now_present);
                        assert(has_people_reading_named(before, reading@.name.unwrap()));
                        assert(first_people_reading_named(before, reading@.name.unwrap())
                            == i as int);
                        assert(record_people_reading(before, reading@) == before.update(
                            i as int,
                            reading@,
                        ));
                        assert(self@.people_now_present =~= before.update(i as int, reading@));
                        assert(self@.temperature =~= old(self)@.temperature);
                    }
                    return ;
                }
                i += 1;
            }
            proof {
                assert(!has_people_reading_named(before, reading@.name.unwrap()));
            }
        }
        self.people_now_present.push(reading);
        proof {
            assert(self@.people_now_present =~= before.push(reading@));
            assert(self@.temperature =~= old(self)@.temperature);
        }
    }

    /// Records or replaces a temperature reading. The readings of every other
    /// sensor kind are left untouched.
    pub fn set_temperature(&mut self, reading: TemperatureSensor)
        ensures
            final(self)@.temperature == record_temperature_reading(
                old(self)@.temperature,
                reading@,
            ),
            final(self)@.people_now_present == old(self)@.people_now_present,
    {
        let ghost before: Seq<TemperatureSensorView> = self@.temperature;
        let is_named: bool = match &reading.name {
            Some(_) => true,
            None => false,
        };
        if is_named {
            let mut i: usize = 0;
            while i < self.temperature.len()
                invariant
                    0 <= i <= self.temperature@.len(),
                    is_named,
                    reading@.name is Some,
                    before == old(self)@.temperature,
                    self@.temperature == before,
                    self@.people_now_present == old(self)@.people_now_present,
                    forall|j: int| 0 <= j < i ==> before[j].name != reading@.name,
                decreases self.temperature@.len() - i,
            {
                let same_name: bool = match (&self.temperature[i].name, &reading.name) {
                    (Some(a), Some(b)) => a.eq(b),
                    _ => false,
                };
                proof {
                    assert(before[i as int] == self.temperature@[i as int]@);
                    assert(same_name <==> before[i as int].name == reading@.name);
                }
                if same_name {
                    proof {
                        lemma_first_temperature_reading_named(
                            before,
                            reading@.name.unwrap(),
                            i as int,
                        );
                    }
                    self.temperature[i] = reading;
                    proof {
                        assert(self@.temperature =~= before.update(i as int, reading@));
                        assert(self@.people_now_present =~= old(self)@.people_now_present);
                    }
                    return ;
                }
                i += 1;
            }
            proof {
                assert(!has_temperature_reading_named(before, reading@.name.unwrap()));
            }
        }
        self.temperature.push(reading);
        proof {
            assert(self@.temperature =~= before.push(reading@));
            assert(self@.people_now_present =~= old(self)@.people_now_present);
        }
    }

    /// The recorded people-now-present readings, in order; empty if none were
    /// recorded.
    pub fn get_people_now_present(&self) -> (r: Vec<PeopleNowPresentSensor>)
        ensures
            seq_view(r@) == self@.people_now_present,
    {
        crate::api::clone_people_now_present_vec(&self.people_now_present)
    }

    /// The recorded temperature readings, in order; empty if none were
    /// recorded.
    pub fn get_temperature(&self) -> (r: Vec<TemperatureSensor>)
        ensures
            seq_view(r@) == self@.temperature,
    {
        crate::api::clone_temperature_vec(&self.temperature)
    }
}

/// The store after a people-now-present reading is recorded.
pub open spec fn store_after_people_reading(
    store: SensorStoreView,
    p: PeopleNowPresentSensorView,
) -> SensorStoreView {
    SensorStoreView {
        people_now_present: record_people_reading(store.people_now_present, p),
        temperature: store.temperature,
    }
}

/// The store after a temperature reading is recorded.
pub open spec fn store_after_temperature_reading(
    store: SensorStoreView,
    t: TemperatureSensorView,
) -> SensorStoreView {
    SensorStoreView {
        people_now_present: store.people_now_present,
        temperature: record_temperature_reading(store.temperature, t),
    }
}

/// Law: writes to distinct sensor kinds never corrupt each other. Recording a
/// people-now-present reading and a temperature reading lands the same store
/// in either interleaving, and each kind holds exactly what its own write
/// put there.
pub proof fn lemma_distinct_kind_writes_commute(
    store: SensorStoreView,
    p: PeopleNowPresentSensorView,
    t: TemperatureSensorView,
)
    ensures
        store_after_temperature_reading(store_after_people_reading(store, p), t)
            == store_after_people_reading(store_after_temperature_reading(store, t), p),
        store_after_temperature_reading(store_after_people_reading(store, p), t)
            .people_now_present == record_people_reading(store.people_now_present, p),
        store_after_temperature_reading(store_after_people_reading(store, p), t).temperature
            == record_temperature_reading(store.temperature, t),
{
    assert(store_after_temperature_reading(store_after_people_reading(store, p), t)
        =~= store_after_people_reading(store_after_temperature_reading(store, t), p));
}

} // verus!
