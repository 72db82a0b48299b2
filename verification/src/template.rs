//! The immutable, operator-supplied base status, validated once at startup.

use vstd::prelude::*;

use crate::api::{seq_view, Contact, Location, Sensors, State, Status, StatusView};

verus! {

/// Why a template was rejected at startup. A process with an invalid template
/// does not start.
#[derive(Debug, PartialEq)]
pub enum ConfigurationError {
    /// The latitude lies outside ±90 degrees.
    LatitudeOutOfRange,
    /// The longitude lies outside ±180 degrees.
    LongitudeOutOfRange,
    /// The declared issue-report channel list names a channel the contact
    /// record does not support.
    UnsupportedIssueReportChannel,
}

/// Latitudes are carried in millionths of a degree and must lie within ±90
/// degrees.
pub open spec fn valid_latitude(lat: int) -> bool {
    -90_000_000 <= lat <= 90_000_000
}

/// Longitudes are carried in millionths of a degree and must lie within ±180
/// degrees.
pub open spec fn valid_longitude(lon: int) -> bool {
    -180_000_000 <= lon <= 180_000_000
}

/// The channel names the contact record supports.
pub open spec fn supported_channel(c: Seq<char>) -> bool {
    ||| c == "irc"@
    ||| c == "twitter"@
    ||| c == "foursquare"@
    ||| c == "email"@
}

/// Whether every declared issue-report channel is supported.
pub open spec fn all_channels_supported(channels: Seq<Seq<char>>) -> bool {
    forall|i: int| 0 <= i < channels.len() ==> supported_channel(channels[i])
}

/// Whether one channel name is supported.
fn is_supported_channel(c: &String) -> (r: bool)
    ensures
        r == supported_channel(c@),
{
    let irc = String::from_str("irc");
    let twitter = String::from_str("twitter");
    let foursquare = String::from_str("foursquare");
    let email = String::from_str("email");
    c.eq(&irc) || c.eq(&twitter) || c.eq(&foursquare) || c.eq(&email)
}

/// A template is well-formed when its coordinates are in range, every
/// declared issue-report channel is supported, and it carries no sensor
/// readings of its own.
pub open spec fn template_wf(v: StatusView) -> bool {
    &&& valid_latitude(v.location.lat)
    &&& valid_longitude(v.location.lon)
    &&& all_channels_supported(v.issue_report_channels)
    &&& v.sensors is None
}

/// The immutable base status. Built once at startup by [`StatusTemplate::new`],
/// which validates it; never mutated afterwards.
pub struct StatusTemplate {
    base: Status,
}

impl View for StatusTemplate {
    type V = StatusView;

    closed spec fn view(&self) -> StatusView {
        self.base@
    }
}

impl StatusTemplate {
    #[verifier::type_invariant]
    spec fn type_inv(self) -> bool {
        template_wf(self@)
    }

    /// Validates the operator-supplied base fields and builds the template.
    /// Succeeds exactly when the coordinates are in range and every declared
    /// issue-report channel is supported; the first failed check names the
    /// error. A template never carries sensor readings.
    pub fn new(
        name: String,
        logo: String,
        url: String,
        location: Location,
        contact: Contact,
        issue_report_channels: Vec<String>,
        state: State,
    ) -> (r: Result<StatusTemplate, ConfigurationError>)
        ensures
            r is Ok <==> {
                &&& valid_latitude(location@.lat)
                &&& valid_longitude(location@.lon)
                &&& all_channels_supported(seq_view(issue_report_channels@))
            },
            r matches Ok(t) ==> {
                &&& template_wf(t@)
                &&& t@ == (StatusView {
                    name: name@,
                    logo: logo@,
                    url: url@,
                    location: location@,
                    contact: contact@,
                    issue_report_channels: seq_view(issue_report_channels@),
                    state: state@,
                    sensors: None,
                })
            },
            r matches Err(e) ==> e == (if !valid_latitude(location@.lat) {
                ConfigurationError::LatitudeOutOfRange
            } else if !valid_longitude(location@.lon) {
                ConfigurationError::LongitudeOutOfRange
            } else {
                ConfigurationError::UnsupportedIssueReportChannel
            }),
    {
        if location.lat_microdeg < -90_000_000 || location.lat_microdeg > 90_000_000 {
            return Err(ConfigurationError::LatitudeOutOfRange);
        }
        if location.lon_microdeg < -180_000_000 || location.lon_microdeg > 180_000_000 {
            return Err(ConfigurationError::LongitudeOutOfRange);
        }
        let mut i: usize = 0;
        while i < issue_report_channels.len()
            invariant
                0 <= i <= issue_report_channels@.len(),
                valid_latitude(location@.lat),
                valid_longitude(location@.lon),
                forall|j: int|
                    0 <= j < i ==> supported_channel(seq_view(issue_report_channels@)[j]),
            decreases issue_report_channels@.len() - i,
        {
            if !is_supported_channel(&issue_report_channels[i]) {
                proof {
                    assert(seq_view(issue_report_channels@)[i as int]
                        == issue_report_channels@[i as int]@);
                }
                return Err(ConfigurationError::UnsupportedIssueReportChannel);
            }
            proof {
                assert(seq_view(issue_report_channels@)[i as int]
                    == issue_report_channels@[i as int]@);
            }
            i += 1;
        }
        let base = Status {
            name,
            logo,
            url,
            location,
            contact,
            issue_report_channels,
            state,
            sensors: None,
        };
        let t = StatusTemplate { base };
        proof {
            assert(t@ =~= (StatusView {
                name: base.name@,
                logo: base.logo@,
                url: base.url@,
                location: base.location@,
                contact: base.contact@,
                issue_report_channels: seq_view(base.issue_report_channels@),
                state: base.state@,
                sensors: None,
            }));
        }
        Ok(t)
    }

    /// A fresh status equal to the base; the in-progress snapshot every
    /// composition starts from. The template itself is never mutated.
    pub fn base_status(&self) -> (r: Status)
        ensures
            r@ == self@,
            template_wf(r@),
    {
        proof {
            use_type_invariant(self);
        }
        self.base.clone()
    }
}

} // verus!
