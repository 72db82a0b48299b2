//! What each record contributes to the serialized document.
//!
//! The wire encoding itself lives outside this crate; these functions pin
//! down the one rule it must follow: a field holding a value appears as a
//! key with exactly that value, and an absent field contributes no key at
//! all — omission, never an explicit null.

use vstd::prelude::*;

use crate::api::{
    seq_view, Contact, ContactView, Location, LocationView, PeopleNowPresentSensor,
    PeopleNowPresentSensorView, State, StateView, Status, StatusView, TemperatureSensor,
    TemperatureSensorView,
};

verus! {

/// A value carried by one key of the serialized document.
#[derive(Debug, PartialEq)]
pub enum FieldValue {
    Bool(bool),
    UInt(u64),
    SInt(i64),
    Text(String),
    TextList(Vec<String>),
}

/// Mathematical view of [`FieldValue`].
pub enum FieldValueView {
    Bool(bool),
    UInt(nat),
    SInt(int),
    Text(Seq<char>),
    TextList(Seq<Seq<char>>),
}

impl View for FieldValue {
    type V = FieldValueView;

    open spec fn view(&self) -> FieldValueView {
        match self {
            FieldValue::Bool(b) => FieldValueView::Bool(*b),
            FieldValue::UInt(n) => FieldValueView::UInt(*n as nat),
            FieldValue::SInt(n) => FieldValueView::SInt(*n as int),
            FieldValue::Text(s) => FieldValueView::Text(s@),
            FieldValue::TextList(v) => FieldValueView::TextList(seq_view(v@)),
        }
    }
}

/// The views of a list of key–value pairs.
pub open spec fn entries_view(s: Seq<(String, FieldValue)>) -> Seq<(Seq<char>, FieldValueView)> {
    s.map(|i: int, p: (String, FieldValue)| (p.0@, p.1@))
}

/// Whether some entry carries this key.
pub open spec fn has_key(es: Seq<(Seq<char>, FieldValueView)>, k: Seq<char>) -> bool {
    exists|i: int| 0 <= i < es.len() && es[i].0 == k
}

/// Whether every entry carrying this key carries this value — together with
/// [`has_key`]: the key appears, with exactly this value.
pub open spec fn entries_agree(
    es: Seq<(Seq<char>, FieldValueView)>,
    k: Seq<char>,
    v: FieldValueView,
) -> bool {
    forall|i: int| 0 <= i < es.len() && es[i].0 == k ==> es[i].1 == v
}

/// Appending an entry adds exactly its key to the keys present.
pub broadcast proof fn lemma_has_key_push(
    es: Seq<(Seq<char>, FieldValueView)>,
    e: (Seq<char>, FieldValueView),
    k: Seq<char>,
)
    ensures
        #[trigger] has_key(es.push(e), k) <==> (has_key(es, k) || e.0 == k),
{
    if has_key(es.push(e), k) {
        let i = choose|i: int| 0 <= i < es.push(e).len() && es.push(e)[i].0 == k;
        if i < es.len() {
            assert(es[i].0 == k);
        } else {
            assert(es.push(e)[es.len() as int] == e);
        }
    }
    if has_key(es, k) {
        let i = choose|i: int| 0 <= i < es.len() && es[i].0 == k;
        assert(es.push(e)[i].0 == k);
    }
    if e.0 == k {
        assert(es.push(e)[es.len() as int].0 == k);
    }
}

/// Appending an entry keeps the entries of a key in agreement exactly when
/// the appended entry agrees too.
pub broadcast proof fn lemma_entries_agree_push(
    es: Seq<(Seq<char>, FieldValueView)>,
    e: (Seq<char>, FieldValueView),
    k: Seq<char>,
    v: FieldValueView,
)
    ensures
        #[trigger] entries_agree(es.push(e), k, v) <==> (entries_agree(es, k, v) && (e.0 == k
            ==> e.1 == v)),
{
    if entries_agree(es.push(e), k, v) {
        assert forall|i: int| 0 <= i < es.len() && es[i].0 == k implies es[i].1 == v by {
            assert(es.push(e)[i] == es[i]);
        }
        if e.0 == k {
            assert(es.push(e)[es.len() as int] == e);
        }
    }
    if entries_agree(es, k, v) && (e.0 == k ==> e.1 == v) {
        assert forall|i: int|
            0 <= i < es.push(e).len() && es.push(e)[i].0 == k implies es.push(e)[i].1 == v by {
            if i < es.len() {
                assert(es.push(e)[i] == es[i]);
            } else {
                assert(es.push(e)[i] == e);
            }
        }
    }
}

// ---------------------------------------------------------------------------
// What each record contributes
// ---------------------------------------------------------------------------

/// The pairs the encoder must emit for a state record.
pub open spec fn state_doc(st: StateView) -> Seq<(Seq<char>, FieldValueView)> {
    let with_open = if st.open is Some {
        Seq::<(Seq<char>, FieldValueView)>::empty().push(
            ("open"@, FieldValueView::Bool(st.open.unwrap())),
        )
    } else {
        Seq::<(Seq<char>, FieldValueView)>::empty()
    };
    if st.message is Some {
        with_open.push(("message"@, FieldValueView::Text(st.message.unwrap())))
    } else {
        with_open
    }
}

/// The pairs the encoder must emit for a location record: the optional
/// address, then the two required coordinates.
pub open spec fn location_doc(l: LocationView) -> Seq<(Seq<char>, FieldValueView)> {
    let with_address = if l.address is Some {
        Seq::<(Seq<char>, FieldValueView)>::empty().push(
            ("address"@, FieldValueView::Text(l.address.unwrap())),
        )
    } else {
        Seq::<(Seq<char>, FieldValueView)>::empty()
    };
    with_address.push(("lat"@, FieldValueView::SInt(l.lat))).push(
        ("lon"@, FieldValueView::SInt(l.lon)),
    )
}

/// The pairs the encoder must emit for a contact record: each channel only
/// when present.
pub open spec fn contact_doc(c: ContactView) -> Seq<(Seq<char>, FieldValueView)> {
    let s0 = Seq::<(Seq<char>, FieldValueView)>::empty();
    let s1 = if c.irc is Some {
        s0.push(("irc"@, FieldValueView::Text(c.irc.unwrap())))
    } else {
        s0
    };
    let s2 = if c.twitter is Some {
        s1.push(("twitter"@, FieldValueView::Text(c.twitter.unwrap())))
    } else {
        s1
    };
    let s3 = if c.foursquare is Some {
        s2.push(("foursquare"@, FieldValueView::Text(c.foursquare.unwrap())))
    } else {
        s2
    };
    if c.email is Some {
        s3.push(("email"@, FieldValueView::Text(c.email.unwrap())))
    } else {
        s3
    }
}

/// The pairs the encoder must emit for one people-now-present reading: the
/// optional metadata, then the required count.
pub open spec fn people_now_present_doc(
    p: PeopleNowPresentSensorView,
) -> Seq<(Seq<char>, FieldValueView)> {
    let s0 = Seq::<(Seq<char>, FieldValueView)>::empty();
    let s1 = if p.location is Some {
        s0.push(("location"@, FieldValueView::Text(p.location.unwrap())))
    } else {
        s0
    };
    let s2 = if p.name is Some {
        s1.push(("name"@, FieldValueView::Text(p.name.unwrap())))
    } else {
        s1
    };
    let s3 = if p.names is Some {
        s2.push(("names"@, FieldValueView::TextList(p.names.unwrap())))
    } else {
        s2
    };
    let s4 = if p.description is Some {
        s3.push(("description"@, FieldValueView::Text(p.description.unwrap())))
    } else {
        s3
    };
    s4.push(("value"@, FieldValueView::UInt(p.value)))
}

/// The pairs the encoder must emit for one temperature reading: the optional
/// metadata, then the required value.
pub open spec fn temperature_doc(t: TemperatureSensorView) -> Seq<(Seq<char>, FieldValueView)> {
    let s0 = Seq::<(Seq<char>, FieldValueView)>::empty();
    let s1 = if t.location is Some {
        s0.push(("location"@, FieldValueView::Text(t.location.unwrap())))
    } else {
        s0
    };
    let s2 = if t.name is Some {
        s1.push(("name"@, FieldValueView::Text(t.name.unwrap())))
    } else {
        s1
    };
    let s3 = if t.description is Some {
        s2.push(("description"@, FieldValueView::Text(t.description.unwrap())))
    } else {
        s2
    };
    s3.push(("value"@, FieldValueView::SInt(t.value_milli)))
}

/// The top-level keys of a status document: the required ones, and `sensors`
/// only when the container is present.
pub open spec fn status_keys(v: StatusView) -> Seq<Seq<char>> {
    let base = seq![
        "name"@,
        "logo"@,
        "url"@,
        "location"@,
        "contact"@,
        "issue_report_channels"@,
        "state"@,
    ];
    if v.sensors is Some {
        base.push("sensors"@)
    } else {
        base
    }
}

// ---------------------------------------------------------------------------
// Executable entry lists
// ---------------------------------------------------------------------------

/// The key–value pairs of a state record, exactly [`state_doc`].
pub fn state_entries(st: &State) -> (r: Vec<(String, FieldValue)>)
    ensures
        entries_view(r@) == state_doc(st@),
{
    let mut r: Vec<(String, FieldValue)> = Vec::new();
    match st.open {
        Some(b) => {
            r.push((String::from_str("open"), FieldValue::Bool(b)));
        },
        None => {},
    }
    match &st.message {
        Some(m) => {
            r.push((String::from_str("message"), FieldValue::Text(m.clone())));
        },
        None => {},
    }
    proof {
        assert(entries_view(r@) =~= state_doc(st@));
    }
    r
}

/// The key–value pairs of a location record, exactly [`location_doc`].
pub fn location_entries(l: &Location) -> (r: Vec<(String, FieldValue)>)
    ensures
        entries_view(r@) == location_doc(l@),
{
    let mut r: Vec<(String, FieldValue)> = Vec::new();
    match &l.address {
        Some(a) => {
            r.push((String::from_str("address"), FieldValue::Text(a.clone())));
        },
        None => {},
    }
    r.push((String::from_str("lat"), FieldValue::SInt(l.lat_microdeg)));
    r.push((String::from_str("lon"), FieldValue::SInt(l.lon_microdeg)));
    proof {
        assert(entries_view(r@) =~= location_doc(l@));
    }
    r
}

/// The key–value pairs of a contact record, exactly [`contact_doc`].
pub fn contact_entries(c: &Contact) -> (r: Vec<(String, FieldValue)>)
    ensures
        entries_view(r@) == contact_doc(c@),
{
    let mut r: Vec<(String, FieldValue)> = Vec::new();
    match &c.irc {
        Some(s) => {
            r.push((String::from_str("irc"), FieldValue::Text(s.clone())));
        },
        None => {},
    }
    match &c.twitter {
        Some(s) => {
            r.push((String::from_str("twitter"), FieldValue::Text(s.clone())));
        },
        None => {},
    }
    match &c.foursquare {
        Some(s) => {
            r.push((String::from_str("foursquare"), FieldValue::Text(s.clone())));
        },
        None => {},
    }
    match &c.email {
        Some(s) => {
            r.push((String::from_str("email"), FieldValue::Text(s.clone())));
        },
        None => {},
    }
    proof {
        assert(entries_view(r@) =~= contact_doc(c@));
    }
    r
}

/// The key–value pairs of one people-now-present reading, exactly
/// [`people_now_present_doc`].
pub fn people_now_present_entries(p: &PeopleNowPresentSensor) -> (r: Vec<(String, FieldValue)>)
    ensures
        entries_view(r@) == people_now_present_doc(p@),
{
    let mut r: Vec<(String, FieldValue)> = Vec::new();
    match &p.location {
        Some(s) => {
            r.push((String::from_str("location"), FieldValue::Text(s.clone())));
        },
        None => {},
    }
    match &p.name {
        Some(s) => {
            r.push((String::from_str("name"), FieldValue::Text(s.clone())));
        },
        None => {},
    }
    match &p.names {
        Some(v) => {
            r.push(
                (String::from_str("names"), FieldValue::TextList(crate::api::clone_string_vec(v))),
            );
        },
        None => {},
    }
    match &p.description {
        Some(s) => {
            r.push((String::from_str("description"), FieldValue::Text(s.clone())));
        },
        None => {},
    }
    r.push((String::from_str("value"), FieldValue::UInt(p.value)));
    proof {
        assert(entries_view(r@) =~= people_now_present_doc(p@));
    }
    r
}

/// The key–value pairs of one temperature reading, exactly
/// [`temperature_doc`].
pub fn temperature_entries(t: &TemperatureSensor) -> (r: Vec<(String, FieldValue)>)
    ensures
        entries_view(r@) == temperature_doc(t@),
{
    let mut r: Vec<(String, FieldValue)> = Vec::new();
    match &t.location {
        Some(s) => {
            r.push((String::from_str("location"), FieldValue::Text(s.clone())));
        },
        None => {},
    }
    match &t.name {
        Some(s) => {
            r.push((String::from_str("name"), FieldValue::Text(s.clone())));
        },
        None => {},
    }
    match &t.description {
        Some(s) => {
            r.push((String::from_str("description"), FieldValue::Text(s.clone())));
        },
        None => {},
    }
    r.push((String::from_str("value"), FieldValue::SInt(t.value_milli)));
    proof {
        assert(entries_view(r@) =~= temperature_doc(t@));
    }
    r
}

/// The top-level keys of a status document, exactly [`status_keys`].
pub fn status_present_keys(s: &Status) -> (r: Vec<String>)
    ensures
        seq_view(r@) == status_keys(s@),
{
    let mut r: Vec<String> = Vec::new();
    r.push(String::from_str("name"));
    r.push(String::from_str("logo"));
    r.push(String::from_str("url"));
    r.push(String::from_str("location"));
    r.push(String::from_str("contact"));
    r.push(String::from_str("issue_report_channels"));
    r.push(String::from_str("state"));
    match &s.sensors {
        Some(_) => {
            r.push(String::from_str("sensors"));
        },
        None => {},
    }
    proof {
        assert(seq_view(r@) =~= status_keys(s@));
    }
    r
}

// ---------------------------------------------------------------------------
// Laws: omission and faithfulness
// ---------------------------------------------------------------------------

/// Law, for the state record: an absent field never appears as a key, and a
/// present field appears with exactly its value.
pub proof fn lemma_state_doc_faithful(st: StateView)
    ensures
        has_key(state_doc(st), "open"@) <==> st.open is Some,
        has_key(state_doc(st), "message"@) <==> st.message is Some,
        st.open matches Some(b) ==> entries_agree(state_doc(st), "open"@, FieldValueView::Bool(b)),
        st.message matches Some(m) ==> entries_agree(
            state_doc(st),
            "message"@,
            FieldValueView::Text(m),
        ),
{
    broadcast use lemma_has_key_push, lemma_entries_agree_push;

    reveal_strlit("open");
    reveal_strlit("message");
    assert("open"@.len() == 4);
    assert("message"@.len() == 7);
}

/// Law, for the location record: the coordinates always appear with exactly
/// their values; the address appears exactly when present, with its value.
pub proof fn lemma_location_doc_faithful(l: LocationView)
    ensures
        has_key(location_doc(l), "address"@) <==> l.address is Some,
        has_key(location_doc(l), "lat"@) && entries_agree(
            location_doc(l),
            "lat"@,
            FieldValueView::SInt(l.lat),
        ),
        has_key(location_doc(l), "lon"@) && entries_agree(
            location_doc(l),
            "lon"@,
            FieldValueView::SInt(l.lon),
        ),
        l.address matches Some(a) ==> entries_agree(
            location_doc(l),
            "address"@,
            FieldValueView::Text(a),
        ),
{
    broadcast use lemma_has_key_push, lemma_entries_agree_push;

    reveal_strlit("address");
    reveal_strlit("lat");
    reveal_strlit("lon");
    assert("address"@.len() == 7);
    assert("lat"@.len() == 3);
    assert("lon"@.len() == 3);
    assert("lat"@[1] == 'a');
    assert("lon"@[1] == 'o');
}

/// Law, for the contact record: each channel appears as a key exactly when
/// it is present, and then with exactly its value.
pub proof fn lemma_contact_doc_faithful(c: ContactView)
    ensures
        has_key(contact_doc(c), "irc"@) <==> c.irc is Some,
        has_key(contact_doc(c), "twitter"@) <==> c.twitter is Some,
        has_key(contact_doc(c), "foursquare"@) <==> c.foursquare is Some,
        has_key(contact_doc(c), "email"@) <==> c.email is Some,
        c.irc matches Some(s) ==> entries_agree(contact_doc(c), "irc"@, FieldValueView::Text(s)),
        c.twitter matches Some(s) ==> entries_agree(
            contact_doc(c),
            "twitter"@,
            FieldValueView::Text(s),
        ),
        c.foursquare matches Some(s) ==> entries_agree(
            contact_doc(c),
            "foursquare"@,
            FieldValueView::Text(s),
        ),
        c.email matches Some(s) ==> entries_agree(
            contact_doc(c),
            "email"@,
            FieldValueView::Text(s),
        ),
{
    broadcast use lemma_has_key_push, lemma_entries_agree_push;

    reveal_strlit("irc");
    reveal_strlit("twitter");
    reveal_strlit("foursquare");
    reveal_strlit("email");
    assert("irc"@.len() == 3);
    assert("twitter"@.len() == 7);
    assert("foursquare"@.len() == 10);
    assert("email"@.len() == 5);
}

/// Law, for one people-now-present reading: the count always appears with
/// exactly its value; each optional field appears exactly when present, with
/// its value.
pub proof fn lemma_people_now_present_doc_faithful(p: PeopleNowPresentSensorView)
    ensures
        has_key(people_now_present_doc(p), "location"@) <==> p.location is Some,
        has_key(people_now_present_doc(p), "name"@) <==> p.name is Some,
        has_key(people_now_present_doc(p), "names"@) <==> p.names is Some,
        has_key(people_now_present_doc(p), "description"@) <==> p.description is Some,
        has_key(people_now_present_doc(p), "value"@) && entries_agree(
            people_now_present_doc(p),
            "value"@,
            FieldValueView::UInt(p.value),
        ),
        p.location matches Some(s) ==> entries_agree(
            people_now_present_doc(p),
            "location"@,
            FieldValueView::Text(s),
        ),
        p.name matches Some(s) ==> entries_agree(
            people_now_present_doc(p),
            "name"@,
            FieldValueView::Text(s),
        ),
        p.names matches Some(v) ==> entries_agree(
            people_now_present_doc(p),
            "names"@,
            FieldValueView::TextList(v),
        ),
        p.description matches Some(s) ==> entries_agree(
            people_now_present_doc(p),
            "description"@,
            FieldValueView::Text(s),
        ),
{
    broadcast use lemma_has_key_push, lemma_entries_agree_push;

    reveal_strlit("location");
    reveal_strlit("name");
    reveal_strlit("names");
    reveal_strlit("description");
    reveal_strlit("value");
    assert("location"@.len() == 8);
    assert("name"@.len() == 4);
    assert("names"@.len() == 5);
    assert("description"@.len() == 11);
    assert("value"@.len() == 5);
    assert("names"@[0] == 'n');
    assert("value"@[0] == 'v');
}

/// Law, for one temperature reading: the value always appears with exactly
/// its value; each optional field appears exactly when present, with its
/// value.
pub proof fn lemma_temperature_doc_faithful(t: TemperatureSensorView)
    ensures
        has_key(temperature_doc(t), "location"@) <==> t.location is Some,
        has_key(temperature_doc(t), "name"@) <==> t.name is Some,
        has_key(temperature_doc(t), "description"@) <==> t.description is Some,
        has_key(temperature_doc(t), "value"@) && entries_agree(
            temperature_doc(t),
            "value"@,
            FieldValueView::SInt(t.value_milli),
        ),
        t.location matches Some(s) ==> entries_agree(
            temperature_doc(t),
            "location"@,
            FieldValueView::Text(s),
        ),
        t.name matches Some(s) ==> entries_agree(
            temperature_doc(t),
            "name"@,
            FieldValueView::Text(s),
        ),
        t.description matches Some(s) ==> entries_agree(
            temperature_doc(t),
            "description"@,
            FieldValueView::Text(s),
        ),
{
    broadcast use lemma_has_key_push, lemma_entries_agree_push;

    reveal_strlit("location");
    reveal_strlit("name");
    reveal_strlit("description");
    reveal_strlit("value");
    assert("location"@.len() == 8);
    assert("name"@.len() == 4);
    assert("description"@.len() == 11);
    assert("value"@.len() == 5);
    assert("name"@[0] == 'n');
    assert("value"@[0] == 'v');
}

/// Law, for the status document: the sensors container appears as a
/// top-level key exactly when it is present — an absent container is omitted,
/// never emitted empty.
pub proof fn lemma_status_keys_sensors(v: StatusView)
    ensures
        status_keys(v).contains("sensors"@) <==> v.sensors is Some,
{
    reveal_strlit("name");
    reveal_strlit("logo");
    reveal_strlit("url");
    reveal_strlit("location");
    reveal_strlit("contact");
    reveal_strlit("issue_report_channels");
    reveal_strlit("state");
    reveal_strlit("sensors");
    assert("sensors"@.len() == 7);
    assert("contact"@.len() == 7);
    assert("contact"@[0] == 'c');
    assert("sensors"@[0] == 's');
    if v.sensors is Some {
        assert(status_keys(v)[7] == "sensors"@);
        assert(status_keys(v).contains("sensors"@));
    }
}

} // verus!
