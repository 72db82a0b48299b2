//! Data model of the status document.
//!
//! Every optional field of the external schema is an `Option`: `None` stands
//! for omission from the serialized document, which is distinct from any
//! explicit value. Each record has a mathematical view (`…View`) over `Seq`,
//! `int` and `nat`; all contracts in this crate speak over those views.

use vstd::prelude::*;

verus! {

// ---------------------------------------------------------------------------
// Spec helpers for views
// ---------------------------------------------------------------------------

/// The view of an optional text field: its character sequence, if present.
pub open spec fn opt_text_view(o: Option<String>) -> Option<Seq<char>> {
    match o {
        Some(s) => Some(s@),
        None => None,
    }
}

/// The views of the elements of a sequence, in order.
pub open spec fn seq_view<T: View>(s: Seq<T>) -> Seq<T::V> {
    s.map(|i: int, t: T| t@)
}

/// The view of an optional list of text values.
pub open spec fn opt_text_list_view(o: Option<Vec<String>>) -> Option<Seq<Seq<char>>> {
    match o {
        Some(v) => Some(seq_view(v@)),
        None => None,
    }
}

// ---------------------------------------------------------------------------
// View types
// ---------------------------------------------------------------------------

/// Mathematical view of [`Location`].
#[verifier::ext_equal]
pub struct LocationView {
    pub address: Option<Seq<char>>,
    pub lat: int,
    pub lon: int,
}

/// Mathematical view of [`Contact`].
#[verifier::ext_equal]
pub struct ContactView {
    pub irc: Option<Seq<char>>,
    pub twitter: Option<Seq<char>>,
    pub foursquare: Option<Seq<char>>,
    pub email: Option<Seq<char>>,
}

/// Mathematical view of [`State`].
#[verifier::ext_equal]
pub struct StateView {
    pub open: Option<bool>,
    pub message: Option<Seq<char>>,
}

/// Mathematical view of [`PeopleNowPresentSensor`].
#[verifier::ext_equal]
pub struct PeopleNowPresentSensorView {
    pub location: Option<Seq<char>>,
    pub name: Option<Seq<char>>,
    pub names: Option<Seq<Seq<char>>>,
    pub description: Option<Seq<char>>,
    pub value: nat,
}

/// Mathematical view of [`TemperatureSensor`].
#[verifier::ext_equal]
pub struct TemperatureSensorView {
    pub location: Option<Seq<char>>,
    pub name: Option<Seq<char>>,
    pub description: Option<Seq<char>>,
    pub value_milli: int,
}

/// Mathematical view of [`Sensors`].
#[verifier::ext_equal]
pub struct SensorsView {
    pub people_now_present: Seq<PeopleNowPresentSensorView>,
    pub temperature: Seq<TemperatureSensorView>,
}

/// Mathematical view of [`Status`].
#[verifier::ext_equal]
pub struct StatusView {
    pub name: Seq<char>,
    pub logo: Seq<char>,
    pub url: Seq<char>,
    pub location: LocationView,
    pub contact: ContactView,
    pub issue_report_channels: Seq<Seq<char>>,
    pub state: StateView,
    pub sensors: Option<SensorsView>,
}

// ---------------------------------------------------------------------------
// Executable records
// ---------------------------------------------------------------------------

/// Where the space is. The address is optional; latitude and longitude are
/// required and carried as millionths of a degree, so that the record holds
/// plain integers.
#[derive(Debug, PartialEq)]
pub struct Location {
    pub address: Option<String>,
    /// Latitude in millionths of a degree.
    pub lat_microdeg: i64,
    /// Longitude in millionths of a degree.
    pub lon_microdeg: i64,
}

/// How to reach the operators of the space; every channel is independently
/// optional.
#[derive(Debug, PartialEq)]
pub struct Contact {
    pub irc: Option<String>,
    pub twitter: Option<String>,
    pub foursquare: Option<String>,
    pub email: Option<String>,
}

/// The open/closed state of the space. Both fields are optional, and their
/// absence is meaningful: an absent `open` is not the same as `open = false`.
/// These are the only fields the built-in modifiers set.
#[derive(Debug, PartialEq)]
pub struct State {
    pub open: Option<bool>,
    pub message: Option<String>,
}

/// One reading of a people-now-present sensor: how many people are in the
/// space right now, with optional descriptive metadata.
#[derive(Debug, PartialEq)]
pub struct PeopleNowPresentSensor {
    pub location: Option<String>,
    pub name: Option<String>,
    pub names: Option<Vec<String>>,
    pub description: Option<String>,
    pub value: u64,
}

/// One temperature reading, carried as thousandths of the unit in use, so
/// that the record holds plain integers.
#[derive(Debug, PartialEq)]
pub struct TemperatureSensor {
    pub location: Option<String>,
    pub name: Option<String>,
    pub description: Option<String>,
    pub value_milli: i64,
}

/// All sensor readings attached to a status, grouped by sensor kind.
#[derive(Debug, PartialEq)]
pub struct Sensors {
    pub people_now_present: Vec<PeopleNowPresentSensor>,
    pub temperature: Vec<TemperatureSensor>,
}

/// The composed status document. Identity fields are required; `sensors` is
/// wholly absent when no sensor kind has any reading, never an empty
/// container.
#[derive(Debug, PartialEq)]
pub struct Status {
    pub name: String,
    pub logo: String,
    pub url: String,
    pub location: Location,
    pub contact: Contact,
    /// The declared list of channels on which issues may be reported; checked
    /// against the channels [`Contact`] supports when a template is built.
    pub issue_report_channels: Vec<String>,
    pub state: State,
    pub sensors: Option<Sensors>,
}

// ---------------------------------------------------------------------------
// Views
// ---------------------------------------------------------------------------

impl View for Location {
    type V = LocationView;

    open spec fn view(&self) -> LocationView {
        LocationView {
            address: opt_text_view(self.address),
            lat: self.lat_microdeg as int,
            lon: self.lon_microdeg as int,
        }
    }
}

impl View for Contact {
    type V = ContactView;

    open spec fn view(&self) -> ContactView {
        ContactView {
            irc: opt_text_view(self.irc),
            twitter: opt_text_view(self.twitter),
            foursquare: opt_text_view(self.foursquare),
            email: opt_text_view(self.email),
        }
    }
}

impl View for State {
    type V = StateView;

    open spec fn view(&self) -> StateView {
        StateView { open: self.open, message: opt_text_view(self.message) }
    }
}

impl View for PeopleNowPresentSensor {
    type V = PeopleNowPresentSensorView;

    open spec fn view(&self) -> PeopleNowPresentSensorView {
        PeopleNowPresentSensorView {
            location: opt_text_view(self.location),
            name: opt_text_view(self.name),
            names: opt_text_list_view(self.names),
            description: opt_text_view(self.description),
            value: self.value as nat,
        }
    }
}

impl View for TemperatureSensor {
    type V = TemperatureSensorView;

    open spec fn view(&self) -> TemperatureSensorView {
        TemperatureSensorView {
            location: opt_text_view(self.location),
            name: opt_text_view(self.name),
            description: opt_text_view(self.description),
            value_milli: self.value_milli as int,
        }
    }
}

impl View for Sensors {
    type V = SensorsView;

    open spec fn view(&self) -> SensorsView {
        SensorsView {
            people_now_present: seq_view(self.people_now_present@),
            temperature: seq_view(self.temperature@),
        }
    }
}

/// The view of an optional sensors container.
pub open spec fn opt_sensors_view(o: Option<Sensors>) -> Option<SensorsView> {
    match o {
        Some(s) => Some(s@),
        None => None,
    }
}

impl View for Status {
    type V = StatusView;

    open spec fn view(&self) -> StatusView {
        StatusView {
            name: self.name@,
            logo: self.logo@,
            url: self.url@,
            location: self.location@,
            contact: self.contact@,
            issue_report_channels: seq_view(self.issue_report_channels@),
            state: self.state@,
            sensors: opt_sensors_view(self.sensors),
        }
    }
}

// ---------------------------------------------------------------------------
// Cloning, with exact contracts
// ---------------------------------------------------------------------------

/// Copies an optional text field; the copy is equal to the original.
pub fn clone_opt_string(o: &Option<String>) -> (r: Option<String>)
    ensures
        r == *o,
{
    match o {
        Some(s) => Some(s.clone()),
        None => None,
    }
}

/// Copies a list of text values; the copy is equal to the original.
pub fn clone_string_vec(v: &Vec<String>) -> (r: Vec<String>)
    ensures
        r@ == v@,
{
    let mut r: Vec<String> = Vec::new();
    let mut i: usize = 0;
    while i < v.len()
        invariant
            0 <= i <= v@.len(),
            r@ == v@.take(i as int),
        decreases v@.len() - i,
    {
        r.push(v[i].clone());
        proof {
            assert(v@.take(i as int).push(v@[i as int]) =~= v@.take(i + 1 as int));
        }
        i += 1;
    }
    proof {
        assert(v@.take(v@.len() as int) =~= v@);
    }
    r
}

impl Clone for Location {
    /// The copy is equal to the original.
    fn clone(&self) -> (r: Self)
        ensures
            r == *self,
    {
        Location {
            address: clone_opt_string(&self.address),
            lat_microdeg: self.lat_microdeg,
            lon_microdeg: self.lon_microdeg,
        }
    }
}

impl Clone for Contact {
    /// The copy is equal to the original.
    fn clone(&self) -> (r: Self)
        ensures
            r == *self,
    {
        Contact {
            irc: clone_opt_string(&self.irc),
            twitter: clone_opt_string(&self.twitter),
            foursquare: clone_opt_string(&self.foursquare),
            email: clone_opt_string(&self.email),
        }
    }
}

impl Clone for State {
    /// The copy is equal to the original.
    fn clone(&self) -> (r: Self)
        ensures
            r == *self,
    {
        State { open: self.open, message: clone_opt_string(&self.message) }
    }
}

impl Clone for PeopleNowPresentSensor {
    /// The copy has the same view as the original.
    fn clone(&self) -> (r: Self)
        ensures
            r@ == self@,
    {
        let names: Option<Vec<String>> = match &self.names {
            Some(v) => Some(clone_string_vec(v)),
            None => None,
        };
        let r = PeopleNowPresentSensor {
            location: clone_opt_string(&self.location),
            name: clone_opt_string(&self.name),
            names,
            description: clone_opt_string(&self.description),
            value: self.value,
        };
        proof {
            assert(r@ =~= self@);
        }
        r
    }
}

impl Clone for TemperatureSensor {
    /// The copy is equal to the original.
    fn clone(&self) -> (r: Self)
        ensures
            r == *self,
    {
        TemperatureSensor {
            location: clone_opt_string(&self.location),
            name: clone_opt_string(&self.name),
            description: clone_opt_string(&self.description),
            value_milli: self.value_milli,
        }
    }
}

/// Copies a list of people-now-present readings; the views match element for
/// element.
pub fn clone_people_now_present_vec(v: &Vec<PeopleNowPresentSensor>) -> (r: Vec<
    PeopleNowPresentSensor,
>)
    ensures
        seq_view(r@) == seq_view(v@),
{
    let mut r: Vec<PeopleNowPresentSensor> = Vec::new();
    let mut i: usize = 0;
    while i < v.len()
        invariant
            0 <= i <= v@.len(),
            r@.len() == i,
            forall|j: int| 0 <= j < i ==> r@[j]@ == v@[j]@,
        decreases v@.len() - i,
    {
        r.push(v[i].clone());
        i += 1;
    }
    proof {
        assert forall|j: int| 0 <= j < v@.len() implies seq_view(r@)[j] == seq_view(v@)[j] by {
            assert(seq_view(r@)[j] == r@[j]@);
            assert(seq_view(v@)[j] == v@[j]@);
        }
        assert(seq_view(r@) =~= seq_view(v@));
    }
    r
}

/// Copies a list of temperature readings; the views match element for
/// element.
pub fn clone_temperature_vec(v: &Vec<TemperatureSensor>) -> (r: Vec<TemperatureSensor>)
    ensures
        seq_view(r@) == seq_view(v@),
{
    let mut r: Vec<TemperatureSensor> = Vec::new();
    let mut i: usize = 0;
    while i < v.len()
        invariant
            0 <= i <= v@.len(),
            r@.len() == i,
            forall|j: int| 0 <= j < i ==> r@[j]@ == v@[j]@,
        decreases v@.len() - i,
    {
        r.push(v[i].clone());
        i += 1;
    }
    proof {
        assert forall|j: int| 0 <= j < v@.len() implies seq_view(r@)[j] == seq_view(v@)[j] by {
            assert(seq_view(r@)[j] == r@[j]@);
            assert(seq_view(v@)[j] == v@[j]@);
        }
        assert(seq_view(r@) =~= seq_view(v@));
    }
    r
}

impl Clone for Sensors {
    /// The copy has the same view as the original.
    fn clone(&self) -> (r: Self)
        ensures
            r@ == self@,
    {
        let r = Sensors {
            people_now_present: clone_people_now_present_vec(&self.people_now_present),
            temperature: clone_temperature_vec(&self.temperature),
        };
        proof {
            assert(r@ =~= self@);
        }
        r
    }
}

impl Clone for Status {
    /// The copy has the same view as the original.
    fn clone(&self) -> (r: Self)
        ensures
            r@ == self@,
    {
        let sensors: Option<Sensors> = match &self.sensors {
            Some(s) => Some(s.clone()),
            None => None,
        };
        let r = Status {
            name: self.name.clone(),
            logo: self.logo.clone(),
            url: self.url.clone(),
            location: self.location.clone(),
            contact: self.contact.clone(),
            issue_report_channels: clone_string_vec(&self.issue_report_channels),
            state: self.state.clone(),
            sensors,
        };
        proof {
            assert(r@ =~= self@);
        }
        r
    }
}

// ---------------------------------------------------------------------------
// Defaults
// ---------------------------------------------------------------------------

/// The view of the default state: both fields absent.
pub open spec fn default_state_view() -> StateView {
    StateView { open: None, message: None }
}

/// The view of the default status: empty identity fields, coordinates at
/// zero, every optional field absent.
pub open spec fn default_status_view() -> StatusView {
    StatusView {
        name: Seq::<char>::empty(),
        logo: Seq::<char>::empty(),
        url: Seq::<char>::empty(),
        location: LocationView { address: None, lat: 0, lon: 0 },
        contact: ContactView { irc: None, twitter: None, foursquare: None, email: None },
        issue_report_channels: Seq::<Seq<char>>::empty(),
        state: default_state_view(),
        sensors: None,
    }
}

impl Default for State {
    /// Both fields start absent.
    fn default() -> (r: Self)
        ensures
            r@ == default_state_view(),
    {
        State { open: None, message: None }
    }
}

impl Default for Location {
    /// No address, coordinates at zero.
    fn default() -> (r: Self)
        ensures
            r@ == (LocationView { address: None, lat: 0, lon: 0 }),
    {
        Location { address: None, lat_microdeg: 0, lon_microdeg: 0 }
    }
}

impl Default for Contact {
    /// Every channel starts absent.
    fn default() -> (r: Self)
        ensures
            r@ == (ContactView { irc: None, twitter: None, foursquare: None, email: None }),
    {
        Contact { irc: None, twitter: None, foursquare: None, email: None }
    }
}

impl Default for Status {
    /// Empty identity fields and every optional field absent.
    fn default() -> (r: Self)
        ensures
            r@ == default_status_view(),
    {
        let r = Status {
            name: String::new(),
            logo: String::new(),
            url: String::new(),
            location: Location::default(),
            contact: Contact::default(),
            issue_report_channels: Vec::new(),
            state: State::default(),
            sensors: None,
        };
        proof {
            assert(seq_view(r.issue_report_channels@) =~= Seq::<Seq<char>>::empty());
            assert(r@ =~= default_status_view());
        }
        r
    }
}

} // verus!
