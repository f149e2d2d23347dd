//! The game log: the messages the player reads about what happened.
use crate::clock::utc_now_millis;
use crate::domain::value_objects::position::Position3D;
use crate::domain::value_objects::resources::{ResourceCollection, ResourceType};
use crate::text::{append_decimal, append_signed_decimal, decimal, signed_decimal};
use vstd::prelude::*;

verus! {

/// Kinds of log message.
#[derive(Debug, Clone, Copy, PartialEq, Eq, Hash, Structural)]
pub enum GameLogType {
    Movement,
    Combat,
    Discovery,
    Rest,
    Resources,
    Event,
    System,
    Warning,
    Critical,
    Narrative,
}

/// Importance of a log message, from low to critical.
#[derive(Debug, Clone, Copy, PartialEq, Eq, PartialOrd, Ord, Structural)]
pub enum LogPriority {
    Low,
    Normal,
    High,
    Critical,
}

/// One message of the log.
#[derive(Debug, Clone)]
pub struct GameLogMessage {
    pub message: String,
    pub log_type: GameLogType,
    pub timestamp: i64,
    pub priority: LogPriority,
}

/// The last `cap` entries of `s` (all of them when there are fewer).
pub open spec fn last_entries<T>(s: Seq<T>, cap: int) -> Seq<T> {
    if s.len() > cap { s.subrange(s.len() - cap, s.len() as int) } else { s }
}

/// "(x, y)".
pub open spec fn pair_text(x: i32, y: i32) -> Seq<char> {
    "("@ + signed_decimal(x as int) + ", "@ + signed_decimal(y as int) + ")"@
}

/// The text logged for a movement attempt.
pub open spec fn movement_text(from: Position3D, to: Position3D, success: bool, dice_roll: Option<u8>) -> Seq<char> {
    if success {
        match dice_roll {
            Some(roll) => "Moved from "@ + pair_text(from.x, from.y) + " to "@ + pair_text(to.x, to.y) + " - Roll: "@
                + decimal(roll as nat),
            None => "Moved from "@ + pair_text(from.x, from.y) + " to "@ + pair_text(to.x, to.y),
        }
    } else {
        "Failed to move to "@ + pair_text(to.x, to.y) + " - insufficient resources"@
    }
}

/// "Food: 10, Energy: 5" for the food, energy, data and technology held, or "None".
pub open spec fn resource_list_text(r: ResourceCollection) -> Seq<char> {
    let parts = seq![ResourceType::Food, ResourceType::Energy, ResourceType::Data, ResourceType::Technology]
        .filter(|t: ResourceType| r.amount(t) > 0);
    if parts.len() == 0 {
        "None"@
    } else {
        joined_parts(r, parts)
    }
}

/// "T: n" for each type of `parts`, joined by ", ".
pub open spec fn joined_parts(r: ResourceCollection, parts: Seq<ResourceType>) -> Seq<char>
    decreases parts.len(),
{
    if parts.len() == 0 {
        Seq::empty()
    } else if parts.len() == 1 {
        parts[0].spec_name() + ": "@ + decimal(r.amount(parts[0]) as nat)
    } else {
        joined_parts(r, parts.drop_last()) + ", "@ + parts.last().spec_name() + ": "@ + decimal(r.amount(parts.last()) as nat)
    }
}

/// The log of game messages, keeping the most recent ones.
#[derive(Debug)]
pub struct GameLogService {
    messages: Vec<GameLogMessage>,
    max_messages: usize,
    include_timestamps: bool,
}

impl GameLogService {
    /// The messages kept, oldest first.
    pub closed spec fn log(&self) -> Seq<GameLogMessage> {
        self.messages@
    }

    /// How many messages are kept.
    pub closed spec fn capacity(&self) -> usize {
        self.max_messages
    }

    /// Whether `after` is `before` with one message of text `text`, kind `t` and
    /// priority `p` added, keeping the last `cap` messages.
    pub open spec fn logged(before: Seq<GameLogMessage>, after: Seq<GameLogMessage>, cap: usize, text: Seq<char>, t: GameLogType, p: LogPriority) -> bool {
        if cap == 0 {
            after.len() == 0
        } else {
            &&& after.len() > 0
            &&& after.last().message@ == text
            &&& after.last().log_type == t
            &&& after.last().priority == p
            &&& after == last_entries(before.push(after.last()), cap as int)
        }
    }

    /// An empty log keeping up to 100 messages.
    pub fn new() -> (r: Self)
        ensures
            r.log().len() == 0,
            r.capacity() == 100,
    {
        GameLogService { messages: Vec::new(), max_messages: 100, include_timestamps: false }
    }

    /// Keep up to `max_messages` messages from the next message on.
    pub fn set_max_messages(&mut self, max_messages: usize)
        ensures
            final(self).capacity() == max_messages,
            final(self).log() == old(self).log(),
    {
        self.max_messages = max_messages;
    }

    /// Log a message of normal priority.
    pub fn log_message(&mut self, message: String, log_type: GameLogType)
        ensures
            Self::logged(old(self).log(), final(self).log(), old(self).capacity(), message@, log_type, LogPriority::Normal),
            final(self).capacity() == old(self).capacity(),
    {
        self.log_message_with_priority(message, log_type, LogPriority::Normal);
    }

    /// Log a message; the oldest messages beyond the capacity are dropped.
    pub fn log_message_with_priority(&mut self, message: String, log_type: GameLogType, priority: LogPriority)
        ensures
            Self::logged(old(self).log(), final(self).log(), old(self).capacity(), message@, log_type, priority),
            final(self).capacity() == old(self).capacity(),
    {
        let ghost text = message@;
        let log_message = GameLogMessage { message, log_type, timestamp: utc_now_millis(), priority };
        self.messages.push(log_message);
        let ghost pushed = self.messages@;
        assert(pushed == old(self).messages@.push(pushed.last()));
        while self.messages.len() > self.max_messages
            invariant
                self.max_messages == old(self).max_messages,
                pushed == old(self).messages@.push(pushed.last()),
                pushed.last().message@ == text,
                pushed.last().log_type == log_type,
                pushed.last().priority == priority,
                pushed.len() > 0,
                self.messages@.len() >= 0,
                self.messages@.len() <= pushed.len(),
                self.messages@ == pushed.subrange(pushed.len() - self.messages@.len(), pushed.len() as int),
                self.messages@.len() >= self.max_messages || self.messages@ == pushed,
            decreases self.messages@.len(),
        {
            self.messages.remove(0);
        }
        proof {
            if self.max_messages > 0 {
                assert(self.messages@.len() > 0);
                assert(self.messages@.last() == pushed.last());
                assert(self.messages@ =~= last_entries(pushed, self.max_messages as int));
            }
        }
    }

    /// Log a movement attempt: a move (with its roll, if any) or a failure for lack
    /// of resources.
    pub fn log_movement_attempt(&mut self, from: Position3D, to: Position3D, success: bool, dice_roll: Option<u8>)
        ensures
            Self::logged(old(self).log(), final(self).log(), old(self).capacity(), movement_text(from, to, success, dice_roll),
                if success { GameLogType::Movement } else { GameLogType::Warning }, LogPriority::Normal),
    {
        let mut message = String::new();
        if success {
            message.append("Moved from ");
            append_pair(&mut message, from.x, from.y);
            message.append(" to ");
            append_pair(&mut message, to.x, to.y);
            match dice_roll {
                Some(roll) => {
                    message.append(" - Roll: ");
                    append_decimal(&mut message, roll as u64);
                },
                None => {},
            }
        } else {
            message.append("Failed to move to ");
            append_pair(&mut message, to.x, to.y);
            message.append(" - insufficient resources");
        }
        assert(message@ =~= movement_text(from, to, success, dice_roll));
        let log_type = if success { GameLogType::Movement } else { GameLogType::Warning };
        self.log_message(message, log_type);
    }

    /// Log a night of rest: the night roll and event, the rest quality, and the
    /// narrative description.
    pub fn log_rest_event(&mut self, night_event: &str, rest_quality: &str, resources_gained: &ResourceCollection, description: &str, dice_roll: u8)
        ensures
            old(self).capacity() >= 3 ==> final(self).log().len() == (if old(self).log().len() + 3 > old(self).capacity() {
                old(self).capacity() as int
            } else {
                old(self).log().len() + 3int
            }),
            old(self).capacity() > 0 ==> final(self).log().last().message@ == description@
                && final(self).log().last().log_type == GameLogType::Narrative,
            final(self).capacity() == old(self).capacity(),
    {
        let mut first = String::from_str("Night Roll: ");
        append_decimal(&mut first, dice_roll as u64);
        first.append(" - ");
        first.append(night_event);
        self.log_message(first, GameLogType::Rest);
        let second = String::from_str("Rest Quality: ").concat(rest_quality);
        self.log_message(second, GameLogType::Rest);
        self.log_message(String::from_str(description), GameLogType::Narrative);
    }

    /// Log movement points restored by rest.
    pub fn log_movement_restoration(&mut self, points: u8, rest_duration_seconds: u64)
        ensures
            Self::logged(old(self).log(), final(self).log(), old(self).capacity(),
                "Movement points restored: "@ + decimal(points as nat) + " - resting for "@ + decimal(rest_duration_seconds as nat) + " seconds"@,
                GameLogType::System, LogPriority::Normal),
    {
        let mut message = String::from_str("Movement points restored: ");
        append_decimal(&mut message, points as u64);
        message.append(" - resting for ");
        append_decimal(&mut message, rest_duration_seconds);
        message.append(" seconds");
        self.log_message(message, GameLogType::System);
    }

    /// Log a gain (positive amount) or loss of a resource.
    pub fn log_resource_change(&mut self, resource_type: ResourceType, amount: i32, reason: &str)
        requires
            amount != i32::MIN,
        ensures
            Self::logged(old(self).log(), final(self).log(), old(self).capacity(),
                if amount > 0 {
                    "Gained "@ + signed_decimal(amount as int) + " "@ + resource_type.spec_name() + " from "@ + reason@
                } else {
                    "Lost "@ + signed_decimal(-amount) + " "@ + resource_type.spec_name() + " from "@ + reason@
                },
                GameLogType::Resources, LogPriority::Normal),
    {
        let mut message = if amount > 0 { String::from_str("Gained ") } else { String::from_str("Lost ") };
        let shown: i64 = if amount > 0 { amount as i64 } else { -(amount as i64) };
        append_signed_decimal(&mut message, shown);
        message.append(" ");
        let name = resource_type.to_string();
        message.append(name.as_str());
        message.append(" from ");
        message.append(reason);
        self.log_message(message, GameLogType::Resources);
    }

    /// Log a discovery at a location.
    pub fn log_discovery(&mut self, discovery: &str, location: Position3D)
        ensures
            Self::logged(old(self).log(), final(self).log(), old(self).capacity(),
                "Discovered "@ + discovery@ + " at "@ + pair_text(location.x, location.y), GameLogType::Discovery, LogPriority::Normal),
    {
        let mut message = String::from_str("Discovered ");
        message.append(discovery);
        message.append(" at ");
        append_pair(&mut message, location.x, location.y);
        self.log_message(message, GameLogType::Discovery);
    }

    /// Log an event.
    pub fn log_event(&mut self, event_title: &str, event_description: &str)
        ensures
            Self::logged(old(self).log(), final(self).log(), old(self).capacity(),
                "Event: "@ + event_title@ + " - "@ + event_description@, GameLogType::Event, LogPriority::Normal),
    {
        let mut message = String::from_str("Event: ");
        message.append(event_title);
        message.append(" - ");
        message.append(event_description);
        self.log_message(message, GameLogType::Event);
    }

    /// Log an action refused for lack of movement points.
    pub fn log_insufficient_resources(&mut self, action: &str, needed: u8, available: u8)
        ensures
            Self::logged(old(self).log(), final(self).log(), old(self).capacity(),
                "Cannot "@ + action@ + ": Need "@ + decimal(needed as nat) + " movement points, have "@ + decimal(available as nat),
                GameLogType::Warning, LogPriority::Normal),
    {
        let mut message = String::from_str("Cannot ");
        message.append(action);
        message.append(": Need ");
        append_decimal(&mut message, needed as u64);
        message.append(" movement points, have ");
        append_decimal(&mut message, available as u64);
        self.log_message(message, GameLogType::Warning);
    }

    /// Log that the player must rest.
    pub fn log_exploration_exhaustion(&mut self)
        ensures
            Self::logged(old(self).log(), final(self).log(), old(self).capacity(),
                "You are exhausted and must rest for the night"@, GameLogType::System, LogPriority::Normal),
    {
        self.log_message(String::from_str("You are exhausted and must rest for the night"), GameLogType::System);
    }

    /// Log the end of a rest.
    pub fn log_rest_completion(&mut self)
        ensures
            Self::logged(old(self).log(), final(self).log(), old(self).capacity(),
                "Rest period complete, you can now move again"@, GameLogType::System, LogPriority::Normal),
    {
        self.log_message(String::from_str("Rest period complete, you can now move again"), GameLogType::System);
    }

    /// Log a roll with its modifiers and outcome.
    pub fn log_dice_roll(&mut self, base_roll: u8, modifiers: i8, final_result: u8, outcome: &str)
        ensures
            Self::logged(old(self).log(), final(self).log(), old(self).capacity(),
                "Rolled "@ + decimal(base_roll as nat) + " "@
                    + (if modifiers >= 0 { "+"@ + decimal(modifiers as nat) } else { signed_decimal(modifiers as int) })
                    + " = "@ + decimal(final_result as nat) + " - Outcome: "@ + outcome@,
                GameLogType::System, LogPriority::Normal),
    {
        let mut message = String::from_str("Rolled ");
        append_decimal(&mut message, base_roll as u64);
        message.append(" ");
        if modifiers >= 0 {
            message.append("+");
        }
        append_signed_decimal(&mut message, modifiers as i64);
        message.append(" = ");
        append_decimal(&mut message, final_result as u64);
        message.append(" - Outcome: ");
        message.append(outcome);
        assert(message@ =~= "Rolled "@ + decimal(base_roll as nat) + " "@
            + (if modifiers >= 0 { "+"@ + decimal(modifiers as nat) } else { signed_decimal(modifiers as int) })
            + " = "@ + decimal(final_result as nat) + " - Outcome: "@ + outcome@);
        self.log_message(message, GameLogType::System);
    }

    /// The `count` most recent messages, newest first.
    pub fn get_recent_messages(&self, count: usize) -> (r: Vec<&GameLogMessage>)
        ensures
            r@.len() == (if self.log().len() < count { self.log().len() as int } else { count as int }),
            forall|i: int| 0 <= i < r@.len() ==> *r@[i] == self.log()[self.log().len() - 1 - i],
    {
        let n = self.messages.len();
        let take = if n < count { n } else { count };
        let mut r: Vec<&GameLogMessage> = Vec::new();
        let mut i: usize = 0;
        while i < take
            invariant
                take <= n == self.messages@.len(),
                0 <= i <= take,
                r@.len() == i,
                forall|k: int| 0 <= k < i ==> *r@[k] == self.messages@[n - 1 - k],
            decreases take - i,
        {
            r.push(&self.messages[n - 1 - i]);
            i = i + 1;
        }
        r
    }

    /// Every message, oldest first.
    pub fn get_all_messages(&self) -> (r: Vec<&GameLogMessage>)
        ensures
            r@.len() == self.log().len(),
            forall|i: int| 0 <= i < r@.len() ==> *r@[i] == self.log()[i],
    {
        let mut r: Vec<&GameLogMessage> = Vec::new();
        let mut i: usize = 0;
        while i < self.messages.len()
            invariant
                0 <= i <= self.messages@.len(),
                r@.len() == i,
                forall|k: int| 0 <= k < i ==> *r@[k] == self.messages@[k],
            decreases self.messages@.len() - i,
        {
            r.push(&self.messages[i]);
            i = i + 1;
        }
        r
    }

    /// Drop every message.
    pub fn clear_messages(&mut self)
        ensures
            final(self).log().len() == 0,
            final(self).capacity() == old(self).capacity(),
    {
        self.messages.clear();
    }

    /// Number of messages kept.
    pub fn message_count(&self) -> (r: usize)
        ensures
            r == self.log().len(),
    {
        self.messages.len()
    }
}

impl Default for GameLogService {
    fn default() -> (r: Self)
        ensures
            r.log().len() == 0,
            r.capacity() == 100,
    {
        Self::new()
    }
}

fn append_pair(s: &mut String, x: i32, y: i32)
    ensures
        final(s)@ == old(s)@ + pair_text(x, y),
{
    s.append("(");
    append_signed_decimal(s, x as i64);
    s.append(", ");
    append_signed_decimal(s, y as i64);
    s.append(")");
    assert(final(s)@ =~= old(s)@ + pair_text(x, y));
}

/// "Food: 10, Energy: 5" for the food, energy, data and technology held, or "None".
pub fn format_resource_collection(resources: &ResourceCollection) -> (r: String)
    ensures
        r@ == resource_list_text(*resources),
{
    let types = [ResourceType::Food, ResourceType::Energy, ResourceType::Data, ResourceType::Technology];
    let ghost all = seq![ResourceType::Food, ResourceType::Energy, ResourceType::Data, ResourceType::Technology];
    let ghost pred = |t: ResourceType| resources.amount(t) > 0;
    let mut text = String::new();
    let mut any = false;
    let mut i: usize = 0;
    while i < 4
        invariant
            0 <= i <= 4,
            types@ == all,
            pred == (|t: ResourceType| resources.amount(t) > 0),
            any == (all.take(i as int).filter(pred).len() > 0),
            text@ == joined_parts(*resources, all.take(i as int).filter(pred)),
        decreases 4 - i,
    {
        let t = types[i];
        let amount = resources.get_amount(t);
        proof {
            assert(all.take(i + 1) =~= all.take(i as int).push(t));
            all.take(i as int).lemma_filter_push(t, pred);
        }
        if amount > 0 {
            if any {
                text.append(", ");
            }
            let name = t.to_string();
            text.append(name.as_str());
            text.append(": ");
            append_decimal(&mut text, amount as u64);
            any = true;
            proof {
                let f = all.take(i + 1).filter(pred);
                assert(f.drop_last() =~= all.take(i as int).filter(pred));
            }
        }
        i = i + 1;
    }
    assert(all.take(4) =~= all);
    if !any {
        return String::from_str("None");
    }
    text
}

} // verus!
