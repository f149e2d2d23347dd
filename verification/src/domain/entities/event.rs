//! Random events and encounters met while exploring.
use crate::clock::utc_now_millis;
use crate::domain::value_objects::resources::ResourceCollection;
use crate::domain::value_objects::{EntityId, GameTime, Position3D};
use crate::domain::{DomainError, DomainResult};
use crate::text::{byte_len, utf8_len};
use vstd::prelude::*;

verus! {

/// Kinds of event.
#[derive(Debug, Clone, Copy, PartialEq, Eq, Hash, Structural)]
pub enum EventType {
    ResourceDiscovery,
    Combat,
    Trade,
    Hazard,
    Mystery,
    Malfunction,
    Boon,
    Narrative,
    BaseEvent,
}

/// Every event type, in declaration order.
pub open spec fn all_event_types() -> Seq<EventType> {
    seq![
        EventType::ResourceDiscovery,
        EventType::Combat,
        EventType::Trade,
        EventType::Hazard,
        EventType::Mystery,
        EventType::Malfunction,
        EventType::Boon,
        EventType::Narrative,
        EventType::BaseEvent,
    ]
}

impl EventType {
    /// Whether events of this type can harm the player.
    pub open spec fn spec_is_dangerous(self) -> bool {
        self is Combat || self is Hazard || self is Malfunction
    }

    /// Whether events of this type help the player.
    pub open spec fn spec_is_beneficial(self) -> bool {
        self is ResourceDiscovery || self is Trade || self is Boon
    }

    /// Display name of the type.
    pub open spec fn spec_name(self) -> Seq<char> {
        match self {
            EventType::ResourceDiscovery => "Resource Discovery"@,
            EventType::Combat => "Combat"@,
            EventType::Trade => "Trade"@,
            EventType::Hazard => "Hazard"@,
            EventType::Mystery => "Mystery"@,
            EventType::Malfunction => "Malfunction"@,
            EventType::Boon => "Boon"@,
            EventType::Narrative => "Narrative"@,
            EventType::BaseEvent => "Base Event"@,
        }
    }

    /// Every event type, in declaration order.
    pub fn all() -> (r: Vec<EventType>)
        ensures
            r@ == all_event_types(),
    {
        let r = vec![
            EventType::ResourceDiscovery,
            EventType::Combat,
            EventType::Trade,
            EventType::Hazard,
            EventType::Mystery,
            EventType::Malfunction,
            EventType::Boon,
            EventType::Narrative,
            EventType::BaseEvent,
        ];
        assert(r@ =~= all_event_types());
        r
    }

    /// Whether events of this type can harm the player.
    pub fn is_dangerous(&self) -> (r: bool)
        ensures
            r == self.spec_is_dangerous(),
    {
        matches!(self, EventType::Combat | EventType::Hazard | EventType::Malfunction)
    }

    /// Whether events of this type help the player.
    pub fn is_beneficial(&self) -> (r: bool)
        ensures
            r == self.spec_is_beneficial(),
    {
        matches!(self, EventType::ResourceDiscovery | EventType::Trade | EventType::Boon)
    }

    /// Display name of the type.
    pub fn to_string(&self) -> (r: String)
        ensures
            r@ == self.spec_name(),
    {
        let s = match self {
            EventType::ResourceDiscovery => "Resource Discovery",
            EventType::Combat => "Combat",
            EventType::Trade => "Trade",
            EventType::Hazard => "Hazard",
            EventType::Mystery => "Mystery",
            EventType::Malfunction => "Malfunction",
            EventType::Boon => "Boon",
            EventType::Narrative => "Narrative",
            EventType::BaseEvent => "Base Event",
        };
        String::from_str(s)
    }
}

/// How an event turned out.
#[derive(Debug, Clone, Copy, PartialEq, Eq, Structural)]
pub enum OutcomeType {
    Success,
    Failure,
    Neutral,
    Mixed,
}

impl OutcomeType {
    /// Display name of the outcome type.
    pub open spec fn spec_name(self) -> Seq<char> {
        match self {
            OutcomeType::Success => "Success"@,
            OutcomeType::Failure => "Failure"@,
            OutcomeType::Neutral => "Neutral"@,
            OutcomeType::Mixed => "Mixed"@,
        }
    }

    /// Display name of the outcome type.
    pub fn to_string(&self) -> (r: String)
        ensures
            r@ == self.spec_name(),
    {
        let s = match self {
            OutcomeType::Success => "Success",
            OutcomeType::Failure => "Failure",
            OutcomeType::Neutral => "Neutral",
            OutcomeType::Mixed => "Mixed",
        };
        String::from_str(s)
    }
}

/// The result of an event: what was gained or lost, and how it is told.
#[derive(Debug, Clone, PartialEq)]
pub struct EventOutcome {
    pub outcome_type: OutcomeType,
    pub resources_gained: Option<ResourceCollection>,
    pub resources_lost: Option<ResourceCollection>,
    pub experience_gained: u32,
    pub description: String,
}

impl EventOutcome {
    /// An outcome from all its parts.
    pub fn new(
        outcome_type: OutcomeType,
        resources_gained: Option<ResourceCollection>,
        resources_lost: Option<ResourceCollection>,
        experience_gained: u32,
        description: String,
    ) -> (r: Self)
        ensures
            r.outcome_type == outcome_type,
            r.resources_gained == resources_gained,
            r.resources_lost == resources_lost,
            r.experience_gained == experience_gained,
            r.description@ == description@,
    {
        EventOutcome { outcome_type, resources_gained, resources_lost, experience_gained, description }
    }

    /// A success that brings resources and experience.
    pub fn success(resources_gained: ResourceCollection, experience_gained: u32, description: String) -> (r: Self)
        ensures
            r.outcome_type == OutcomeType::Success,
            r.resources_gained == Some(resources_gained),
            r.resources_lost is None,
            r.experience_gained == experience_gained,
            r.description@ == description@,
    {
        Self::new(OutcomeType::Success, Some(resources_gained), None, experience_gained, description)
    }

    /// A failure that costs resources.
    pub fn failure(resources_lost: ResourceCollection, description: String) -> (r: Self)
        ensures
            r.outcome_type == OutcomeType::Failure,
            r.resources_gained is None,
            r.resources_lost == Some(resources_lost),
            r.experience_gained == 0,
            r.description@ == description@,
    {
        Self::new(OutcomeType::Failure, None, Some(resources_lost), 0, description)
    }

    /// An outcome with no effect.
    pub fn neutral(description: String) -> (r: Self)
        ensures
            r.outcome_type == OutcomeType::Neutral,
            r.resources_gained is None,
            r.resources_lost is None,
            r.experience_gained == 0,
            r.description@ == description@,
    {
        Self::new(OutcomeType::Neutral, None, None, 0, description)
    }
}

/// Whole seconds since the epoch of a time in milliseconds (rounded down).
pub open spec fn epoch_seconds(millis: i64) -> int {
    millis as int / 1000
}

/// Whole seconds since the epoch of a time in milliseconds (rounded down).
pub fn seconds_of_millis(millis: i64) -> (r: i64)
    ensures
        r == epoch_seconds(millis),
{
    if millis >= 0 {
        millis / 1000
    } else {
        (millis + 1) / 1000 - 1
    }
}

/// An event met by the player.
#[derive(Debug, Clone, PartialEq)]
pub struct Event {
    id: EntityId,
    event_type: EventType,
    title: String,
    description: String,
    location: Option<Position3D>,
    triggered_at: i64,
    duration: Option<GameTime>,
    outcomes: Vec<EventOutcome>,
    is_resolved: bool,
    version: u64,
}

/// Whether a title has from 1 to 100 bytes.
pub open spec fn valid_event_title(title: Seq<char>) -> bool {
    title.len() > 0 && utf8_len(title) <= 100
}

/// Whether a description has from 1 to 500 bytes.
pub open spec fn valid_event_description(description: Seq<char>) -> bool {
    description.len() > 0 && utf8_len(description) <= 500
}

impl Event {
    /// The identity of the event.
    pub closed spec fn spec_id(&self) -> EntityId {
        self.id
    }

    /// The type of the event.
    pub closed spec fn spec_event_type(&self) -> EventType {
        self.event_type
    }

    /// The title of the event.
    pub closed spec fn spec_title(&self) -> Seq<char> {
        self.title@
    }

    /// The description of the event.
    pub closed spec fn spec_description(&self) -> Seq<char> {
        self.description@
    }

    /// Where the event happens, if anywhere.
    pub closed spec fn spec_location(&self) -> Option<Position3D> {
        self.location
    }

    /// When the event was triggered, in milliseconds since the epoch.
    pub closed spec fn spec_triggered_at(&self) -> i64 {
        self.triggered_at
    }

    /// How long the event lasts, if it expires.
    pub closed spec fn spec_duration(&self) -> Option<GameTime> {
        self.duration
    }

    /// The outcomes recorded so far.
    pub closed spec fn spec_outcomes(&self) -> Seq<EventOutcome> {
        self.outcomes@
    }

    /// Whether the event is resolved.
    pub closed spec fn spec_resolved(&self) -> bool {
        self.is_resolved
    }

    /// Number of changes made to the event.
    pub closed spec fn spec_version(&self) -> u64 {
        self.version
    }

    /// A new unresolved event, triggered now; the title must have 1 to 100 bytes and
    /// the description 1 to 500.
    pub fn new(event_type: EventType, title: String, description: String, location: Option<Position3D>) -> (r: DomainResult<Self>)
        ensures
            r is Ok <==> valid_event_title(title@) && valid_event_description(description@),
            !valid_event_title(title@) ==> r matches Err(DomainError::ValidationError(_)),
            valid_event_title(title@) && !valid_event_description(description@) ==> r matches Err(DomainError::ValidationError(_)),
            r matches Ok(e) ==> e.spec_event_type() == event_type && e.spec_title() == title@
                && e.spec_description() == description@ && e.spec_location() == location
                && e.spec_duration() is None && e.spec_outcomes().len() == 0 && !e.spec_resolved()
                && e.spec_version() == 1,
    {
        if title.as_str().is_empty() || byte_len(title.as_str()) > 100 {
            return Err(DomainError::ValidationError(String::from_str("Event title must be between 1 and 100 characters")));
        }
        if description.as_str().is_empty() || byte_len(description.as_str()) > 500 {
            return Err(DomainError::ValidationError(String::from_str("Event description must be between 1 and 500 characters")));
        }
        Ok(Event {
            id: EntityId::generate(),
            event_type,
            title,
            description,
            location,
            triggered_at: utc_now_millis(),
            duration: None,
            outcomes: Vec::new(),
            is_resolved: false,
            version: 1,
        })
    }

    /// The identity of the event.
    pub fn id(&self) -> (r: &EntityId)
        ensures
            *r == self.spec_id(),
    {
        &self.id
    }

    /// The type of the event.
    pub fn event_type(&self) -> (r: EventType)
        ensures
            r == self.spec_event_type(),
    {
        self.event_type
    }

    /// The title of the event.
    pub fn title(&self) -> (r: &str)
        ensures
            r@ == self.spec_title(),
    {
        self.title.as_str()
    }

    /// The description of the event.
    pub fn description(&self) -> (r: &str)
        ensures
            r@ == self.spec_description(),
    {
        self.description.as_str()
    }

    /// Where the event happens, if anywhere.
    pub fn location(&self) -> (r: Option<&Position3D>)
        ensures
            r matches Some(p) ==> self.spec_location() == Some(*p),
            r is None <==> self.spec_location() is None,
    {
        match &self.location {
            Some(p) => Some(p),
            None => None,
        }
    }

    /// When the event was triggered, in milliseconds since the epoch (UTC).
    pub fn triggered_at(&self) -> (r: i64)
        ensures
            r == self.spec_triggered_at(),
    {
        self.triggered_at
    }

    /// Whether the event is resolved.
    pub fn is_resolved(&self) -> (r: bool)
        ensures
            r == self.spec_resolved(),
    {
        self.is_resolved
    }

    /// The outcomes recorded so far.
    pub fn outcomes(&self) -> (r: &[EventOutcome])
        ensures
            r@ == self.spec_outcomes(),
    {
        self.outcomes.as_slice()
    }

    /// Resolve the event with an outcome; an event is resolved once only.
    pub fn resolve(&mut self, outcome: EventOutcome) -> (r: DomainResult<()>)
        requires
            old(self).spec_version() < u64::MAX,
        ensures
            r is Ok <==> !old(self).spec_resolved(),
            r is Err ==> (r matches Err(DomainError::EventTriggerError(_))) && *final(self) == *old(self),
            r is Ok ==> final(self).spec_resolved()
                && final(self).spec_outcomes() == old(self).spec_outcomes().push(outcome)
                && final(self).spec_version() == old(self).spec_version() + 1
                && final(self).spec_event_type() == old(self).spec_event_type()
                && final(self).spec_title() == old(self).spec_title()
                && final(self).spec_triggered_at() == old(self).spec_triggered_at()
                && final(self).spec_duration() == old(self).spec_duration(),
    {
        if self.is_resolved {
            return Err(DomainError::EventTriggerError(String::from_str("Event is already resolved")));
        }
        self.outcomes.push(outcome);
        self.is_resolved = true;
        self.version = self.version + 1;
        Ok(())
    }

    /// Whether the event's duration has run out by `current_time`: the game time in
    /// seconds, less the trigger time in seconds since the epoch (truncated to 32
    /// bits), saturating at zero, reaches the duration. Events without a duration
    /// never expire.
    pub fn is_expired(&self, current_time: GameTime) -> (r: bool)
        ensures
            r == (match self.spec_duration() {
                Some(d) => {
                    let trig = epoch_seconds(self.spec_triggered_at()) as u32;
                    (if current_time.secs() < trig { 0 } else { current_time.secs() - trig }) >= d.secs()
                },
                None => false,
            }),
    {
        match &self.duration {
            Some(duration) => {
                let trig = seconds_of_millis(self.triggered_at) as u32;
                let elapsed = current_time.seconds().saturating_sub(trig);
                elapsed >= duration.seconds()
            },
            None => false,
        }
    }
}

} // verus!
