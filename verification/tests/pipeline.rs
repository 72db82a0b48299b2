//! Tests of the template, the sensor store, the composer, the decimal
//! rendering and the document entry lists.

use space_status::api::{
    Contact, Location, PeopleNowPresentSensor, State, Status, TemperatureSensor,
};
use space_status::composer::{compose, compose_from_fetches, StoreUnavailable};
use space_status::decimal::decimal_string;
use space_status::document::{state_entries, status_present_keys, FieldValue};
use space_status::modifiers::{occupancy_message_string, Modifier, ModifierChain, StateFromPeopleNowPresent};
use space_status::store::SensorStore;
use space_status::template::{ConfigurationError, StatusTemplate};

fn sample_template() -> StatusTemplate {
    StatusTemplate::new(
        "Example Space".to_string(),
        "https://example.net/logo.png".to_string(),
        "https://example.net".to_string(),
        Location {
            address: Some("1 Example Street".to_string()),
            lat_microdeg: 47_376_888,
            lon_microdeg: 8_547_466,
        },
        Contact {
            irc: Some("irc://irc.example.net/#space".to_string()),
            twitter: None,
            foursquare: None,
            email: Some("hello@example.net".to_string()),
        },
        vec!["email".to_string(), "irc".to_string()],
        State {
            open: None,
            message: None,
        },
    )
    .expect("the sample template is valid")
}

fn pnp_reading(name: Option<&str>, value: u64) -> PeopleNowPresentSensor {
    PeopleNowPresentSensor {
        location: None,
        name: name.map(|n| n.to_string()),
        names: None,
        description: None,
        value,
    }
}

fn temperature_reading(name: Option<&str>, value_milli: i64) -> TemperatureSensor {
    TemperatureSensor {
        location: None,
        name: name.map(|n| n.to_string()),
        description: None,
        value_milli,
    }
}

fn default_chain() -> ModifierChain<Modifier> {
    let mut chain: ModifierChain<Modifier> = ModifierChain::new();
    chain.register(Modifier::StateFromPeopleNowPresent(StateFromPeopleNowPresent));
    chain
}

// ---------------------------------------------------------------------------
// Template validation
// ---------------------------------------------------------------------------

#[test]
fn template_accepts_valid_fields() {
    let template = sample_template();
    let base = template.base_status();
    assert_eq!(base.name, "Example Space".to_string());
    assert_eq!(base.location.lat_microdeg, 47_376_888);
    assert_eq!(base.sensors, None);
    assert_eq!(base.state.open, None);
}

#[test]
fn template_rejects_latitude_out_of_range() {
    let r = StatusTemplate::new(
        "x".to_string(),
        "x".to_string(),
        "x".to_string(),
        Location {
            address: None,
            lat_microdeg: 90_000_001,
            lon_microdeg: 0,
        },
        Contact {
            irc: None,
            twitter: None,
            foursquare: None,
            email: None,
        },
        vec![],
        State {
            open: None,
            message: None,
        },
    );
    assert_eq!(r.err(), Some(ConfigurationError::LatitudeOutOfRange));
}

#[test]
fn template_rejects_longitude_out_of_range() {
    let r = StatusTemplate::new(
        "x".to_string(),
        "x".to_string(),
        "x".to_string(),
        Location {
            address: None,
            lat_microdeg: 0,
            lon_microdeg: -180_000_001,
        },
        Contact {
            irc: None,
            twitter: None,
            foursquare: None,
            email: None,
        },
        vec![],
        State {
            open: None,
            message: None,
        },
    );
    assert_eq!(r.err(), Some(ConfigurationError::LongitudeOutOfRange));
}

#[test]
fn template_rejects_unsupported_channel() {
    let r = StatusTemplate::new(
        "x".to_string(),
        "x".to_string(),
        "x".to_string(),
        Location {
            address: None,
            lat_microdeg: 0,
            lon_microdeg: 0,
        },
        Contact {
            irc: None,
            twitter: None,
            foursquare: None,
            email: None,
        },
        vec!["email".to_string(), "phone".to_string()],
        State {
            open: None,
            message: None,
        },
    );
    assert_eq!(
        r.err(),
        Some(ConfigurationError::UnsupportedIssueReportChannel)
    );
}

// ---------------------------------------------------------------------------
// Sensor store
// ---------------------------------------------------------------------------

// Interleaved writes to distinct sensor kinds land independently: every
// final value is correct.
#[test]
fn distinct_kinds_do_not_corrupt_each_other() {
    let mut store = SensorStore::new();
    store.set_people_now_present(pnp_reading(Some("door"), 1));
    store.set_temperature(temperature_reading(Some("cellar"), 18_500));
    store.set_people_now_present(pnp_reading(Some("door"), 4));
    store.set_temperature(temperature_reading(Some("roof"), 31_000));
    store.set_temperature(temperature_reading(Some("cellar"), 17_250));

    let people = store.get_people_now_present();
    assert_eq!(people.len(), 1);
    assert_eq!(people[0].value, 4);

    let temperatures = store.get_temperature();
    assert_eq!(temperatures.len(), 2);
    assert_eq!(temperatures[0].name, Some("cellar".to_string()));
    assert_eq!(temperatures[0].value_milli, 17_250);
    assert_eq!(temperatures[1].name, Some("roof".to_string()));
    assert_eq!(temperatures[1].value_milli, 31_000);
}

#[test]
fn named_reading_replaces_only_its_namesake() {
    let mut store = SensorStore::new();
    store.set_people_now_present(pnp_reading(Some("front"), 2));
    store.set_people_now_present(pnp_reading(Some("back"), 5));
    store.set_people_now_present(pnp_reading(Some("front"), 3));
    let people = store.get_people_now_present();
    assert_eq!(people.len(), 2);
    assert_eq!(people[0].name, Some("front".to_string()));
    assert_eq!(people[0].value, 3);
    assert_eq!(people[1].name, Some("back".to_string()));
    assert_eq!(people[1].value, 5);
}

#[test]
fn unnamed_readings_are_appended() {
    let mut store = SensorStore::new();
    store.set_people_now_present(pnp_reading(None, 1));
    store.set_people_now_present(pnp_reading(None, 2));
    let people = store.get_people_now_present();
    assert_eq!(people.len(), 2);
    assert_eq!(people[0].value, 1);
    assert_eq!(people[1].value, 2);
}

// ---------------------------------------------------------------------------
// Composition
// ---------------------------------------------------------------------------

// Composing twice with no intervening write yields field-for-field identical
// snapshots.
#[test]
fn compose_twice_is_identical() {
    let template = sample_template();
    let mut store = SensorStore::new();
    store.set_people_now_present(pnp_reading(Some("door"), 2));
    let chain = default_chain();
    let first = compose(&template, &store, &chain);
    let second = compose(&template, &store, &chain);
    assert_eq!(first, second);
    assert_eq!(first.state.open, Some(true));
}

#[test]
fn compose_without_readings_leaves_sensors_wholly_absent() {
    let template = sample_template();
    let store = SensorStore::new();
    let chain = default_chain();
    let snapshot = compose(&template, &store, &chain);
    assert_eq!(snapshot.sensors, None);
    assert_eq!(snapshot.state.open, None);
    assert_eq!(snapshot.state.message, None);
}

#[test]
fn compose_merges_readings_and_derives_state() {
    let template = sample_template();
    let mut store = SensorStore::new();
    store.set_people_now_present(pnp_reading(Some("door"), 1));
    let chain = default_chain();
    let snapshot = compose(&template, &store, &chain);
    let sensors = snapshot.sensors.expect("one reading was recorded");
    assert_eq!(sensors.people_now_present.len(), 1);
    assert_eq!(sensors.people_now_present[0].value, 1);
    assert_eq!(snapshot.state.open, Some(true));
    assert_eq!(
        snapshot.state.message,
        Some("1 person here right now".to_string())
    );
    // The template itself was not mutated by composing.
    assert_eq!(template.base_status().state.open, None);
}

// A backing-store timeout during a read degrades that sensor kind to absent;
// the snapshot is still composed.
#[test]
fn unavailable_kind_degrades_to_absent() {
    let template = sample_template();
    let chain = default_chain();
    let snapshot = compose_from_fetches(
        &template,
        Err(StoreUnavailable),
        Ok(vec![temperature_reading(Some("cellar"), 18_000)]),
        &chain,
    );
    let sensors = snapshot.sensors.expect("the temperature fetch succeeded");
    assert_eq!(sensors.people_now_present.len(), 0);
    assert_eq!(sensors.temperature.len(), 1);
    assert_eq!(snapshot.state.open, None);
}

#[test]
fn all_kinds_unavailable_still_composes() {
    let template = sample_template();
    let chain = default_chain();
    let snapshot = compose_from_fetches(&template, Err(StoreUnavailable), Err(StoreUnavailable), &chain);
    assert_eq!(snapshot.sensors, None);
    assert_eq!(snapshot.name, "Example Space".to_string());
    assert_eq!(snapshot.state.open, None);
}

// ---------------------------------------------------------------------------
// Decimal rendering and messages
// ---------------------------------------------------------------------------

#[test]
fn decimal_rendering_is_exact() {
    assert_eq!(decimal_string(0), "0".to_string());
    assert_eq!(decimal_string(7), "7".to_string());
    assert_eq!(decimal_string(10), "10".to_string());
    assert_eq!(decimal_string(30409), "30409".to_string());
    assert_eq!(
        decimal_string(u64::MAX),
        "18446744073709551615".to_string()
    );
}

#[test]
fn occupancy_messages_are_exact() {
    assert_eq!(
        occupancy_message_string(1),
        "1 person here right now".to_string()
    );
    assert_eq!(
        occupancy_message_string(2),
        "2 people here right now".to_string()
    );
    assert_eq!(
        occupancy_message_string(120),
        "120 people here right now".to_string()
    );
}

// ---------------------------------------------------------------------------
// Document entries: omission versus value
// ---------------------------------------------------------------------------

// An absent field never appears as a key; a present field appears with
// exactly its value.
#[test]
fn absent_state_fields_contribute_no_key() {
    let entries = state_entries(&State {
        open: None,
        message: None,
    });
    assert!(entries.is_empty());

    let entries = state_entries(&State {
        open: Some(false),
        message: None,
    });
    assert_eq!(entries.len(), 1);
    assert_eq!(entries[0].0, "open".to_string());
    assert_eq!(entries[0].1, FieldValue::Bool(false));
    assert!(entries.iter().all(|(k, _)| k != "message"));

    let entries = state_entries(&State {
        open: Some(true),
        message: Some("around".to_string()),
    });
    assert_eq!(entries.len(), 2);
    assert_eq!(entries[1].0, "message".to_string());
    assert_eq!(entries[1].1, FieldValue::Text("around".to_string()));
}

#[test]
fn sensors_key_is_omitted_when_container_is_absent() {
    let mut status = Status::default();
    let keys = status_present_keys(&status);
    assert!(keys.iter().all(|k| k != "sensors"));
    assert!(keys.iter().any(|k| k == "state"));

    status.sensors = Some(space_status::api::Sensors {
        people_now_present: vec![],
        temperature: vec![],
    });
    let keys = status_present_keys(&status);
    assert!(keys.iter().any(|k| k == "sensors"));
}
