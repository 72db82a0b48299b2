//! Tests of the built-in modifiers and the modifier chain.

use space_status::api;
use space_status::modifiers::{
    MessageFromOpen, Modifier, ModifierChain, StateFromPeopleNowPresent, StatusModifier,
};

fn make_pnp_sensor(value: u64) -> api::PeopleNowPresentSensor {
    api::PeopleNowPresentSensor {
        location: None,
        name: None,
        names: None,
        description: None,
        value,
    }
}

#[test]
fn no_sensors() {
    let mut status = api::Status::default();
    status.sensors = None;
    assert_eq!(status.state.message, None);
    StateFromPeopleNowPresent.modify(&mut status);
    assert_eq!(status.sensors, None);
    assert_eq!(status.state.message, None);
}

#[test]
fn no_people_present_sensor() {
    let mut status = api::Status::default();
    status.sensors = Some(api::Sensors {
        people_now_present: vec![],
        temperature: vec![],
    });
    assert_eq!(status.state.message, None);
    StateFromPeopleNowPresent.modify(&mut status);
    assert_eq!(status.state.message, None);
}

#[test]
fn zero_people_present() {
    let mut status = api::Status::default();
    status.state.message = Some("This will remain unchanged.".to_string());
    status.sensors = Some(api::Sensors {
        people_now_present: vec![make_pnp_sensor(0)],
        temperature: vec![],
    });
    assert_eq!(
        status.state.message,
        Some("This will remain unchanged.".to_string())
    );
    StateFromPeopleNowPresent.modify(&mut status);
    assert_eq!(
        status.state.message,
        Some("This will remain unchanged.".to_string())
    );
}

#[test]
fn one_person_present() {
    let mut status = api::Status::default();
    status.sensors = Some(api::Sensors {
        people_now_present: vec![make_pnp_sensor(1)],
        temperature: vec![],
    });
    assert_eq!(status.state.message, None);
    StateFromPeopleNowPresent.modify(&mut status);
    assert_eq!(
        status.state.message,
        Some("1 person here right now".to_string())
    );
}

#[test]
fn two_people_present() {
    let mut status = api::Status::default();
    status.sensors = Some(api::Sensors {
        people_now_present: vec![make_pnp_sensor(2)],
        temperature: vec![],
    });
    assert_eq!(status.state.message, None);
    StateFromPeopleNowPresent.modify(&mut status);
    assert_eq!(
        status.state.message,
        Some("2 people here right now".to_string())
    );
}

#[test]
fn zero_people_present_still_sets_open() {
    let mut status = api::Status::default();
    status.state.message = Some("This will remain unchanged.".to_string());
    status.sensors = Some(api::Sensors {
        people_now_present: vec![make_pnp_sensor(0)],
        temperature: vec![],
    });
    StateFromPeopleNowPresent.modify(&mut status);
    assert_eq!(status.state.open, Some(false));
}

#[test]
fn only_first_reading_is_consulted() {
    let mut status = api::Status::default();
    status.sensors = Some(api::Sensors {
        people_now_present: vec![make_pnp_sensor(3), make_pnp_sensor(0)],
        temperature: vec![],
    });
    StateFromPeopleNowPresent.modify(&mut status);
    assert_eq!(status.state.open, Some(true));
    assert_eq!(
        status.state.message,
        Some("3 people here right now".to_string())
    );
}

#[test]
fn message_from_open_without_flag_is_a_no_op() {
    let mut status = api::Status::default();
    let modifier = MessageFromOpen {
        open_message: "doors open".to_string(),
        closed_message: "doors closed".to_string(),
    };
    modifier.modify(&mut status);
    assert_eq!(status.state.open, None);
    assert_eq!(status.state.message, None);
}

// Registration order is application order: the second step reads the open
// flag the first step set, so it must observe that effect.
#[test]
fn later_modifier_observes_earlier_effect() {
    let mut chain: ModifierChain<Modifier> = ModifierChain::new();
    chain.register(Modifier::StateFromPeopleNowPresent(StateFromPeopleNowPresent));
    chain.register(Modifier::MessageFromOpen(MessageFromOpen {
        open_message: "doors open".to_string(),
        closed_message: "doors closed".to_string(),
    }));

    let mut status = api::Status::default();
    status.sensors = Some(api::Sensors {
        people_now_present: vec![make_pnp_sensor(2)],
        temperature: vec![],
    });
    chain.apply_all(&mut status);
    assert_eq!(status.state.open, Some(true));
    assert_eq!(status.state.message, Some("doors open".to_string()));
}

// The same two steps in the opposite order end differently: order matters.
#[test]
fn reversed_chain_order_ends_differently() {
    let mut chain: ModifierChain<Modifier> = ModifierChain::new();
    chain.register(Modifier::MessageFromOpen(MessageFromOpen {
        open_message: "doors open".to_string(),
        closed_message: "doors closed".to_string(),
    }));
    chain.register(Modifier::StateFromPeopleNowPresent(StateFromPeopleNowPresent));

    let mut status = api::Status::default();
    status.sensors = Some(api::Sensors {
        people_now_present: vec![make_pnp_sensor(2)],
        temperature: vec![],
    });
    chain.apply_all(&mut status);
    assert_eq!(status.state.open, Some(true));
    assert_eq!(
        status.state.message,
        Some("2 people here right now".to_string())
    );
}
