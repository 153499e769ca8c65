use vstd::prelude::*;

verus! {

/// The power level `entries` gives `key`: the level of its first entry for
/// that key, if any.
pub open spec fn level_entry(entries: Seq<(String, i64)>, key: Seq<char>) -> Option<i64>
    decreases entries.len(),
{
    if entries.len() == 0 {
        None
    } else if entries[0].0@ == key {
        Some(entries[0].1)
    } else {
        level_entry(entries.drop_first(), key)
    }
}

/// Looks `key` up in a list of per-user or per-event levels.
fn find_level(entries: &Vec<(String, i64)>, key: &str) -> (r: Option<i64>)
    ensures
        r == level_entry(entries@, key@),
{
    let wanted = key.to_owned();
    let mut i: usize = 0;
    assert(entries@.skip(0) == entries@);
    while i < entries.len()
        invariant
            i <= entries@.len(),
            wanted@ == key@,
            level_entry(entries@, key@) == level_entry(entries@.skip(i as int), key@),
        decreases entries@.len() - i,
    {
        assert(entries@.skip(i as int).drop_first() == entries@.skip(i + 1));
        assert(entries@.skip(i as int)[0] == entries@[i as int]);
        if entries[i].0 == wanted {
            assert(level_entry(entries@.skip(i as int), key@) == Some(entries@[i as int].1));
            return Some(entries[i].1);
        }
        i = i + 1;
    }
    None
}

/// The permission tiers of a room: per-user levels with their default, the
/// levels required per event type with their defaults, and the level needed
/// to invite.
pub struct PowerLevels {
    pub users: Vec<(String, i64)>,
    pub users_default: i64,
    pub events: Vec<(String, i64)>,
    pub events_default: i64,
    pub state_default: i64,
    pub invite: i64,
}

/// Event type of chat messages.
pub open spec fn message_type() -> Seq<char> {
    "m.room.message"@
}

/// Event type of reactions.
pub open spec fn reaction_type() -> Seq<char> {
    "m.reaction"@
}

/// State event type of the power levels themselves.
pub open spec fn power_levels_type() -> Seq<char> {
    "m.room.power_levels"@
}

impl PowerLevels {
    /// The level of `user`.
    pub open spec fn user_level(&self, user: Seq<char>) -> i64 {
        match level_entry(self.users@, user) {
            Some(l) => l,
            None => self.users_default,
        }
    }

    /// The level required to send a message-like event of type `ty`.
    pub open spec fn message_level(&self, ty: Seq<char>) -> i64 {
        match level_entry(self.events@, ty) {
            Some(l) => l,
            None => self.events_default,
        }
    }

    /// The level required to send a state event of type `ty`.
    pub open spec fn state_level(&self, ty: Seq<char>) -> i64 {
        match level_entry(self.events@, ty) {
            Some(l) => l,
            None => self.state_default,
        }
    }

    /// The level of `user`.
    pub fn for_user(&self, user: &str) -> (r: i64)
        ensures
            r == self.user_level(user@),
    {
        match find_level(&self.users, user) {
            Some(l) => l,
            None => self.users_default,
        }
    }

    /// The level required to send a message-like event of type `ty`.
    pub fn for_message(&self, ty: &str) -> (r: i64)
        ensures
            r == self.message_level(ty@),
    {
        match find_level(&self.events, ty) {
            Some(l) => l,
            None => self.events_default,
        }
    }

    /// The level required to send a state event of type `ty`.
    pub fn for_state(&self, ty: &str) -> (r: i64)
        ensures
            r == self.state_level(ty@),
    {
        match find_level(&self.events, ty) {
            Some(l) => l,
            None => self.state_default,
        }
    }

    /// Whether `user` may invite others into the room.
    pub fn user_can_invite(&self, user: &str) -> (r: bool)
        ensures
            r == (self.user_level(user@) >= self.invite),
    {
        self.for_user(user) >= self.invite
    }
}

/// What the startup self-check of a watched room found. Each flag is a
/// misconfiguration that defeats or breaks the join challenge.
#[derive(Debug, PartialEq, Eq)]
pub struct RoomAdvisory {
    /// Users can chat at the default level, so the challenge gates nothing.
    pub default_can_chat: bool,
    /// Reacting needs more than the default level, so newcomers cannot answer.
    pub reactions_restricted: bool,
    /// The gatekeeper may not change power levels, so promotion would fail.
    pub cannot_promote: bool,
}

impl RoomAdvisory {
    /// Whether nothing was found.
    pub fn is_clear(&self) -> (r: bool)
        ensures
            r == (!self.default_can_chat && !self.reactions_restricted && !self.cannot_promote),
    {
        !self.default_can_chat && !self.reactions_restricted && !self.cannot_promote
    }
}

/// Checks a watched room's power levels for settings that defeat the
/// challenge or keep the gatekeeper from promoting anyone.
pub fn self_check(levels: &PowerLevels, gatekeeper: &str) -> (r: RoomAdvisory)
    ensures
        r.default_can_chat == (levels.users_default >= levels.message_level(message_type())),
        r.reactions_restricted == (levels.message_level(reaction_type()) > levels.users_default),
        r.cannot_promote == (levels.user_level(gatekeeper@) < levels.state_level(
            power_levels_type(),
        )),
{
    let chat = levels.for_message("m.room.message");
    let react = levels.for_message("m.reaction");
    let change = levels.for_state("m.room.power_levels");
    let own = levels.for_user(gatekeeper);
    RoomAdvisory {
        default_can_chat: levels.users_default >= chat,
        reactions_restricted: react > levels.users_default,
        cannot_promote: own < change,
    }
}

} // verus!
