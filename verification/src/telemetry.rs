//! The facade: it holds the consent record and says, for each event and each
//! error, whether it goes to a collector and in what form. Without consent
//! nothing goes anywhere, and no client is to be made.

use crate::config::TelemetryConfig;
use crate::error::{TelemetryError, TelemetryErrorView, TelemetryResult};
use vstd::prelude::*;

verus! {

/// `serde_json::Value`, a JSON value. The library takes such values from the
/// caller and passes them on; it never looks inside one.
#[verifier::external_type_specification]
#[verifier::external_body]
pub struct ExJsonValue(serde_json::Value);

/// `posthog_rs::Event`, an event in the analytics client's own form. What it
/// holds is named by `name_of`, `distinct_id_of` and `properties_of`.
#[verifier::external_type_specification]
#[verifier::external_body]
pub struct ExEvent(posthog_rs::Event);

/// `posthog_rs::Error`, the analytics client's error. Only its description is
/// used.
#[verifier::external_type_specification]
#[verifier::external_body]
pub struct ExEventError(posthog_rs::Error);

/// The version that events and error reports are marked with.
pub const VERSION: &'static str = "0.1.0";

/// The name of the property, and of the tag, that holds the operating system.
pub const PLATFORM_KEY: &'static str = "platform";

/// The name of the property, and of the tag, that holds the version.
pub const VERSION_KEY: &'static str = "version";

/// The name of the tag that holds the application's name.
pub const APP_KEY: &'static str = "app";

/// How the error-reporting client is to be set up.
#[derive(Debug)]
pub struct ErrorReporting {
    /// The address of the collector.
    pub dsn: String,
    /// The release that reports are filed under.
    pub release: String,
    /// The tags that every report carries, each a name and a value.
    pub tags: Vec<(String, String)>,
}

/// An event as the library shapes it, before it is put in the analytics client's
/// own form.
#[derive(Debug)]
pub struct TrackedEvent {
    pub name: String,
    /// The identifier of the installation that the event is filed under.
    pub distinct_id: String,
    /// The properties, each a name and a JSON value, in the order in which they
    /// are set: of two with one name the later stays.
    pub properties: Vec<(String, serde_json::Value)>,
}

/// The facade.
#[derive(Debug)]
pub struct Telemetry {
    pub config: TelemetryConfig,
    /// The key for the analytics client, where one is to be made.
    pub posthog: Option<String>,
    /// The setup of the error-reporting client, where one is to be made.
    pub sentry: Option<ErrorReporting>,
    /// The operating system that the process runs on.
    pub platform: String,
}

/// The name of an event of the analytics client.
pub uninterp spec fn name_of(event: posthog_rs::Event) -> Seq<char>;

/// The identifier that an event of the analytics client is filed under.
pub uninterp spec fn distinct_id_of(event: posthog_rs::Event) -> Seq<char>;

/// The properties of an event of the analytics client, by their names.
pub uninterp spec fn properties_of(event: posthog_rs::Event) -> Map<
    Seq<char>,
    serde_json::Value,
>;

/// No properties at all.
pub open spec fn no_properties() -> Map<Seq<char>, serde_json::Value> {
    Map::empty()
}

/// The JSON string that holds a text.
pub uninterp spec fn text_value(text: Seq<char>) -> serde_json::Value;

/// Calls `serde_json::Value::from` on a text, which makes the JSON string of that
/// text. Trusted: the result is the value that `text_value` names.
#[verifier::external_body]
fn json_text(text: &str) -> (value: serde_json::Value)
    ensures
        value == text_value(text@),
{
    serde_json::Value::from(text)
}

/// Calls `posthog_rs::Event::new`. Trusted: the event has the given name and
/// identifier and no property yet.
#[verifier::external_body]
fn new_event(name: &str, distinct_id: &str) -> (event: posthog_rs::Event)
    ensures
        name_of(event) == name@,
        distinct_id_of(event) == distinct_id@,
        properties_of(event) == no_properties(),
{
    posthog_rs::Event::new(name, distinct_id)
}

/// Calls `posthog_rs::Event::insert_prop` with a JSON value. The call fails only
/// where its value cannot be turned into JSON, and a JSON value always can.
/// Trusted: the call succeeds and the event has the value under the name, in
/// place of what it had there; name and identifier stay.
#[verifier::external_body]
fn insert_value(
    event: &mut posthog_rs::Event,
    key: &str,
    value: &serde_json::Value,
) -> (inserted: Result<(), posthog_rs::Error>)
    ensures
        name_of(*final(event)) == name_of(*old(event)),
        distinct_id_of(*final(event)) == distinct_id_of(*old(event)),
        inserted is Ok,
        properties_of(*final(event)) == properties_of(*old(event)).insert(key@, *value),
{
    event.insert_prop(key, value)
}

/// Each pair of texts as a pair of sequences of characters.
pub open spec fn pairs(list: Seq<(String, String)>) -> Seq<(Seq<char>, Seq<char>)> {
    list.map_values(|pair: (String, String)| (pair.0@, pair.1@))
}

/// The tags of every error report: the application, the version, the platform.
pub open spec fn report_tags(app_name: Seq<char>, platform: Seq<char>) -> Seq<
    (Seq<char>, Seq<char>),
> {
    seq![(APP_KEY@, app_name), (VERSION_KEY@, VERSION@), (PLATFORM_KEY@, platform)]
}

/// The properties that setting each of a list in turn leaves: of two with one
/// name the later stays.
pub open spec fn set_all(properties: Seq<(String, serde_json::Value)>) -> Map<
    Seq<char>,
    serde_json::Value,
>
    decreases properties.len(),
{
    if properties.len() == 0 {
        Map::empty()
    } else {
        set_all(properties.drop_last()).insert(properties.last().0@, properties.last().1)
    }
}

/// A property called `name` whose value is the JSON string of `text`.
pub open spec fn is_text_property(
    property: (String, serde_json::Value),
    name: Seq<char>,
    text: Seq<char>,
) -> bool {
    property.0@ == name && property.1 == text_value(text)
}

/// `all` is the list `given` with the library's two properties after it: the
/// platform, then the version.
pub open spec fn extends(
    all: Seq<(String, serde_json::Value)>,
    given: Seq<(String, serde_json::Value)>,
    platform: Seq<char>,
) -> bool {
    &&& all.len() == given.len() + 2
    &&& all.take(given.len() as int) == given
    &&& is_text_property(all[all.len() - 2], PLATFORM_KEY@, platform)
    &&& is_text_property(all[all.len() - 1], VERSION_KEY@, VERSION@)
}

/// The properties of an event that is sent: the caller's, each set in turn, and
/// over them the library's two, the platform and the version.
pub open spec fn merged_properties(
    properties: Seq<(String, serde_json::Value)>,
    platform: Seq<char>,
) -> Map<Seq<char>, serde_json::Value> {
    set_all(properties).insert(PLATFORM_KEY@, text_value(platform)).insert(
        VERSION_KEY@,
        text_value(VERSION@),
    )
}

/// The error for an event that did not get to the collector.
pub open spec fn not_sent(reason: Seq<char>) -> TelemetryErrorView {
    TelemetryErrorView::SendError(reason)
}

impl ErrorReporting {
    /// The setup for the collector at `dsn`, for this application on this platform.
    pub open spec fn is_for(self, dsn: String, app_name: Seq<char>, platform: Seq<char>) -> bool {
        &&& self.dsn == dsn
        &&& self.release@ == VERSION@
        &&& pairs(self.tags@) == report_tags(app_name, platform)
    }
}

impl TrackedEvent {
    /// The properties that the collector gets.
    pub open spec fn sent_properties(self) -> Map<Seq<char>, serde_json::Value> {
        set_all(self.properties@)
    }

    /// `event` is this event in the analytics client's form.
    pub open spec fn is_built(self, event: posthog_rs::Event) -> bool {
        &&& name_of(event) == self.name@
        &&& distinct_id_of(event) == self.distinct_id@
        &&& properties_of(event) == self.sent_properties()
    }

    /// The error for a property that the analytics client reports as not taken: a
    /// send error with the client's description. With JSON values the client
    /// reports none.
    pub fn rejected(error: &posthog_rs::Error) -> (failure: TelemetryError)
        ensures
            failure matches TelemetryError::SendError(detail)
                && vstd::string::to_string_from_display_ensures::<posthog_rs::Error>(error, detail),
    {
        TelemetryError::SendError(error.to_string())
    }

    /// Puts the event in the analytics client's form: the name, the identifier and
    /// each property in turn. The client takes every JSON value, so this succeeds,
    /// and the event holds exactly the properties that are to be sent.
    pub fn build(&self) -> (built: TelemetryResult<posthog_rs::Event>)
        ensures
            built matches Ok(event) && self.is_built(event),
    {
        let mut event = new_event(self.name.as_str(), self.distinct_id.as_str());
        let mut i: usize = 0;
        while i < self.properties.len()
            invariant
                i <= self.properties.len(),
                name_of(event) == self.name@,
                distinct_id_of(event) == self.distinct_id@,
                properties_of(event) == set_all(self.properties@.take(i as int)),
            decreases self.properties.len() - i,
        {
            match insert_value(&mut event, self.properties[i].0.as_str(), &self.properties[i].1) {
                Ok(_) => {},
                Err(error) => {
                    return Err(Self::rejected(&error));
                },
            }
            proof {
                let next = self.properties@.take(i + 1);
                assert(next.drop_last() == self.properties@.take(i as int));
            }
            i += 1;
        }
        assert(self.properties@.take(i as int) == self.properties@);
        Ok(event)
    }
}

impl Telemetry {
    /// Without consent the facade holds no client.
    pub open spec fn wf(&self) -> bool {
        !self.config.enabled ==> self.posthog is None && self.sentry is None
    }

    /// Events go to the analytics collector.
    pub open spec fn forwards_events(&self) -> bool {
        self.config.enabled && self.posthog is Some
    }

    /// Errors go to the error-reporting collector.
    pub open spec fn forwards_errors(&self) -> bool {
        self.config.enabled && self.sentry is Some
    }

    /// Makes the facade for a record that was loaded or made. With consent, an
    /// analytics client is to be made where a key is given, and an error-reporting
    /// client where a DSN is given; without consent, neither.
    pub fn new(
        app_name: &str,
        posthog_key: Option<String>,
        sentry_dsn: Option<String>,
        config: TelemetryConfig,
        platform: &str,
    ) -> (telemetry: Telemetry)
        ensures
            telemetry.wf(),
            telemetry.config == config,
            telemetry.platform@ == platform@,
            telemetry.posthog == if config.enabled {
                posthog_key
            } else {
                None
            },
            match sentry_dsn {
                Some(dsn) if config.enabled => telemetry.sentry matches Some(setup) && setup.is_for(
                    dsn,
                    app_name@,
                    platform@,
                ),
                _ => telemetry.sentry is None,
            },
    {
        let posthog = if config.enabled {
            posthog_key
        } else {
            None
        };
        let sentry = if config.enabled {
            match sentry_dsn {
                Some(dsn) => {
                    let mut tags: Vec<(String, String)> = Vec::new();
                    tags.push((String::from_str(APP_KEY), String::from_str(app_name)));
                    tags.push((String::from_str(VERSION_KEY), String::from_str(VERSION)));
                    tags.push((String::from_str(PLATFORM_KEY), String::from_str(platform)));
                    assert(pairs(tags@) =~= report_tags(app_name@, platform@));
                    Some(ErrorReporting { dsn, release: String::from_str(VERSION), tags })
                },
                None => None,
            }
        } else {
            None
        };
        Telemetry { config, posthog, sentry, platform: String::from_str(platform) }
    }

    /// Shapes an event: nothing without consent or without an analytics client;
    /// else the event under the installation's identifier, with the caller's
    /// properties and, after them, the library's two.
    pub fn plan_event(
        &self,
        event_name: &str,
        properties: Vec<(String, serde_json::Value)>,
    ) -> (event: Option<TrackedEvent>)
        ensures
            event is Some <==> self.forwards_events(),
            event matches Some(planned) ==> {
                &&& planned.name@ == event_name@
                &&& planned.distinct_id@ == self.config.instance_id@
                &&& extends(planned.properties@, properties@, self.platform@)
                &&& planned.sent_properties() == merged_properties(properties@, self.platform@)
            },
    {
        if !self.config.enabled {
            return None;
        }
        if self.posthog.is_none() {
            return None;
        }
        let ghost given = properties@;
        let mut properties = properties;
        properties.push((String::from_str(PLATFORM_KEY), json_text(self.platform.as_str())));
        properties.push((String::from_str(VERSION_KEY), json_text(VERSION)));
        proof {
            let all = properties@;
            let most = all.drop_last();
            assert(all.take(given.len() as int) == given);
            assert(most.drop_last() == given);
            assert(most.last() == all[all.len() - 2]);
            assert(set_all(most) == set_all(given).insert(
                PLATFORM_KEY@,
                text_value(self.platform@),
            ));
        }
        Some(
            TrackedEvent {
                name: String::from_str(event_name),
                distinct_id: self.config.instance_id.clone(),
                properties,
            },
        )
    }

    /// Says what goes to the analytics collector for an event. Without consent or
    /// without a client nothing does, and that is a success. Else the event is
    /// shaped and put in the client's form, and is to be sent: it has the given
    /// name, the installation's identifier, the caller's properties and over them
    /// the library's two.
    pub fn track_event(
        &self,
        event_name: &str,
        properties: Vec<(String, serde_json::Value)>,
    ) -> (outgoing: TelemetryResult<Option<posthog_rs::Event>>)
        ensures
            !self.forwards_events() ==> outgoing matches Ok(None),
            self.forwards_events() ==> {
                &&& outgoing matches Ok(Some(event))
                &&& name_of(event) == event_name@
                &&& distinct_id_of(event) == self.config.instance_id@
                &&& properties_of(event) == merged_properties(properties@, self.platform@)
            },
    {
        match self.plan_event(event_name, properties) {
            None => Ok(None),
            Some(planned) => match planned.build() {
                Ok(event) => Ok(Some(event)),
                Err(error) => Err(error),
            },
        }
    }

    /// Says whether an error goes to the error-reporting collector: with consent
    /// and a client it does, whatever the error.
    pub fn track_error(&self) -> (forward: bool)
        ensures
            forward == self.forwards_errors(),
    {
        self.config.enabled && self.sentry.is_some()
    }

    /// What the tracking of an event comes to, once the collector's client has
    /// taken the event or failed: a failure is a send error with the client's
    /// reason.
    pub fn event_result(outcome: Result<(), String>) -> (result: TelemetryResult<()>)
        ensures
            match outcome {
                Ok(_) => result is Ok,
                Err(reason) => result matches Err(error) && error@ == not_sent(reason@),
            },
    {
        match outcome {
            Ok(_) => Ok(()),
            Err(reason) => Err(TelemetryError::SendError(reason)),
        }
    }
}

/// A facade without consent is inert: it holds no client, no event and no error
/// goes anywhere.
pub proof fn lemma_without_consent_inert(telemetry: Telemetry)
    requires
        telemetry.wf(),
        !telemetry.config.enabled,
    ensures
        telemetry.posthog is None,
        telemetry.sentry is None,
        !telemetry.forwards_events(),
        !telemetry.forwards_errors(),
{
}

/// The library's two properties are in every event that is sent, with the
/// library's values, whatever the caller gave under those names; every other
/// property of the event is one that the caller gave.
pub proof fn lemma_fixed_properties_win(
    properties: Seq<(String, serde_json::Value)>,
    platform: Seq<char>,
)
    ensures
        merged_properties(properties, platform).dom() == set_all(properties).dom().insert(
            PLATFORM_KEY@,
        ).insert(VERSION_KEY@),
        merged_properties(properties, platform)[PLATFORM_KEY@] == text_value(platform),
        merged_properties(properties, platform)[VERSION_KEY@] == text_value(VERSION@),
        forall|key: Seq<char>|
            key != PLATFORM_KEY@ && key != VERSION_KEY@ && set_all(properties).dom().contains(key)
                ==> #[trigger] merged_properties(properties, platform)[key] == set_all(
                properties,
            )[key],
{
    reveal_strlit("platform");
    reveal_strlit("version");
    assert(PLATFORM_KEY@[0] == 'p');
    assert(VERSION_KEY@[0] == 'v');
}

} // verus!
