use vstd::prelude::*;
use vstd::string::StringExecFns;
use vstd::utf8::encode_utf8;

use crate::levels::PowerLevels;

verus! {

/// Size of the challenge alphabet.
pub const ALPHABET_SIZE: u64 = 7;

/// Modulus of the identifier hash.
pub const HASH_MODULUS: u64 = 1_000_000_007;

/// Multiplier of the identifier hash.
pub const HASH_BASE: u64 = 31;

/// Polynomial hash of a byte string, reduced modulo `HASH_MODULUS`.
pub open spec fn byte_hash(b: Seq<u8>) -> nat
    decreases b.len(),
{
    if b.len() == 0 {
        0
    } else {
        ((byte_hash(b.drop_last()) * HASH_BASE + b.last()) % (HASH_MODULUS as int)) as nat
    }
}

/// The challenge symbol (an index into the alphabet) assigned to a user id.
pub open spec fn symbol_of(user_id: Seq<char>) -> nat {
    byte_hash(encode_utf8(user_id)) % (ALPHABET_SIZE as nat)
}

/// Index of the challenge symbol of `user_id`: a stable hash of its UTF-8
/// bytes, reduced modulo the alphabet size.
pub fn challenge_symbol(user_id: &str) -> (r: usize)
    ensures
        r == symbol_of(user_id@),
        r < ALPHABET_SIZE,
{
    let bytes = user_id.as_bytes();
    let mut h: u64 = 0;
    let mut i: usize = 0;
    while i < bytes.len()
        invariant
            i <= bytes@.len(),
            bytes@ == encode_utf8(user_id@),
            h == byte_hash(bytes@.subrange(0, i as int)),
            h < HASH_MODULUS,
        decreases bytes@.len() - i,
    {
        assert(bytes@.subrange(0, i + 1).drop_last() == bytes@.subrange(0, i as int));
        h = (h * HASH_BASE + bytes[i] as u64) % HASH_MODULUS;
        i = i + 1;
    }
    assert(bytes@.subrange(0, bytes@.len() as int) == bytes@);
    (h % ALPHABET_SIZE) as usize
}

/// The reaction key of each challenge symbol.
pub open spec fn symbol_text(symbol: nat) -> Seq<char> {
    if symbol == 0 {
        "\u{1F34E}"@
    } else if symbol == 1 {
        "\u{1F431}"@
    } else if symbol == 2 {
        "\u{1F335}"@
    } else if symbol == 3 {
        "\u{1F6B2}"@
    } else if symbol == 4 {
        "\u{1F388}"@
    } else if symbol == 5 {
        "\u{1F511}"@
    } else {
        "\u{2B50}"@
    }
}

/// The reaction key of challenge symbol `symbol`.
pub fn symbol_key(symbol: usize) -> (r: &'static str)
    requires
        symbol < ALPHABET_SIZE,
    ensures
        r@ == symbol_text(symbol as nat),
{
    if symbol == 0 {
        "\u{1F34E}"
    } else if symbol == 1 {
        "\u{1F431}"
    } else if symbol == 2 {
        "\u{1F335}"
    } else if symbol == 3 {
        "\u{1F6B2}"
    } else if symbol == 4 {
        "\u{1F388}"
    } else if symbol == 5 {
        "\u{1F511}"
    } else {
        "\u{2B50}"
    }
}

/// The text of the challenge posted for `user_id`.
pub open spec fn challenge_message(user_id: Seq<char>) -> Seq<char> {
    user_id + ": to be allowed to post here, react to this message with "@ + symbol_text(
        symbol_of(user_id),
    )
}

/// The challenge text for `user_id`, naming the user and the reaction they
/// must give.
pub fn challenge_text(user_id: &str) -> (r: String)
    ensures
        r@ == challenge_message(user_id@),
{
    let mut text = user_id.to_owned();
    text.append(": to be allowed to post here, react to this message with ");
    text.append(symbol_key(challenge_symbol(user_id)));
    text
}

/// Join events older than this many milliseconds are history being replayed,
/// not arrivals.
pub const STALE_AFTER_MS: u64 = 600_000;

/// Whether an event sent at `origin_ms` is stale when handled at `now_ms`.
pub open spec fn is_stale(origin_ms: u64, now_ms: u64) -> bool {
    now_ms - origin_ms > STALE_AFTER_MS
}

/// A member joined a room.
#[derive(Debug, PartialEq, Eq)]
pub struct JoinEvent {
    pub event_id: String,
    pub room_id: String,
    pub sender: String,
    pub origin_ms: u64,
}

/// A reaction was added to a message.
#[derive(Debug, PartialEq, Eq)]
pub struct ReactionEvent {
    pub room_id: String,
    pub sender: String,
    pub target_event_id: String,
    pub key: String,
}

/// The challenge to post in reply to a join.
#[derive(Debug, PartialEq, Eq)]
pub struct ChallengeReply {
    pub room_id: String,
    pub reply_to: String,
    pub user_id: String,
    pub symbol: usize,
    pub text: String,
}

/// A power-level override granting `user_id` the level `level` in `room_id`.
#[derive(Debug, PartialEq, Eq)]
pub struct Promotion {
    pub room_id: String,
    pub user_id: String,
    pub level: i64,
}

/// The join challenge engine: the gatekeeper's own user id and the rooms it
/// protects.
pub struct ChallengeEngine {
    pub gatekeeper: String,
    pub rooms: Vec<String>,
}

impl ChallengeEngine {
    /// Whether the engine protects the room `room_id`.
    pub open spec fn watches(&self, room_id: Seq<char>) -> bool {
        exists|i: int| 0 <= i < self.rooms@.len() && (#[trigger] self.rooms@[i])@ == room_id
    }

    /// Whether a join gets a challenge.
    pub open spec fn join_challenged(&self, ev: JoinEvent, now_ms: u64) -> bool {
        self.watches(ev.room_id@) && !is_stale(ev.origin_ms, now_ms)
    }

    /// Whether a reaction to a message by `target_author` verifies its sender:
    /// the key is the sender's own symbol, the message is the gatekeeper's, and
    /// the sender is below the room's default send level.
    pub open spec fn reaction_promotes(
        &self,
        ev: ReactionEvent,
        target_author: Seq<char>,
        levels: PowerLevels,
    ) -> bool {
        &&& self.watches(ev.room_id@)
        &&& target_author == self.gatekeeper@
        &&& ev.key@ == symbol_text(symbol_of(ev.sender@))
        &&& levels.user_level(ev.sender@) < levels.events_default
    }

    /// Whether the engine protects the room `room_id`.
    pub fn is_watched(&self, room_id: &str) -> (r: bool)
        ensures
            r == self.watches(room_id@),
    {
        let wanted = room_id.to_owned();
        let mut i: usize = 0;
        while i < self.rooms.len()
            invariant
                i <= self.rooms@.len(),
                wanted@ == room_id@,
                forall|j: int| 0 <= j < i ==> (#[trigger] self.rooms@[j])@ != room_id@,
            decreases self.rooms@.len() - i,
        {
            if self.rooms[i] == wanted {
                return true;
            }
            i = i + 1;
        }
        false
    }

    /// Decides what to do with a join seen at `now_ms`: the challenge to post
    /// in reply, or nothing for an unprotected room or a stale event.
    pub fn on_join(&self, ev: &JoinEvent, now_ms: u64) -> (r: Option<ChallengeReply>)
        ensures
            r is Some <==> self.join_challenged(*ev, now_ms),
            r matches Some(c) ==> {
                &&& c.room_id@ == ev.room_id@
                &&& c.reply_to@ == ev.event_id@
                &&& c.user_id@ == ev.sender@
                &&& c.symbol == symbol_of(ev.sender@)
                &&& c.text@ == challenge_message(ev.sender@)
            },
    {
        if !self.is_watched(ev.room_id.as_str()) {
            return None;
        }
        if now_ms > ev.origin_ms && now_ms - ev.origin_ms > STALE_AFTER_MS {
            return None;
        }
        Some(
            ChallengeReply {
                room_id: ev.room_id.clone(),
                reply_to: ev.event_id.clone(),
                user_id: ev.sender.clone(),
                symbol: challenge_symbol(ev.sender.as_str()),
                text: challenge_text(ev.sender.as_str()),
            },
        )
    }

    /// Decides what to do with a reaction to a message written by
    /// `target_author`, given the room's power levels: the promotion to
    /// issue, or nothing.
    pub fn on_reaction(&self, ev: &ReactionEvent, target_author: &str, levels: &PowerLevels) -> (r:
        Option<Promotion>)
        ensures
            r is Some <==> self.reaction_promotes(*ev, target_author@, *levels),
            r matches Some(p) ==> {
                &&& p.room_id@ == ev.room_id@
                &&& p.user_id@ == ev.sender@
                &&& p.level == levels.events_default
                &&& p.level > levels.user_level(ev.sender@)
            },
    {
        if !self.is_watched(ev.room_id.as_str()) {
            return None;
        }
        let author = target_author.to_owned();
        if author != self.gatekeeper {
            return None;
        }
        let expected = symbol_key(challenge_symbol(ev.sender.as_str())).to_owned();
        if ev.key != expected {
            return None;
        }
        if levels.for_user(ev.sender.as_str()) >= levels.events_default {
            return None;
        }
        Some(
            Promotion {
                room_id: ev.room_id.clone(),
                user_id: ev.sender.clone(),
                level: levels.events_default,
            },
        )
    }
}

/// A user's challenge symbol depends on the user id alone: equal ids get the
/// same symbol, in any run of the process, and it lies in the alphabet.
pub proof fn symbol_is_stable(a: Seq<char>, b: Seq<char>)
    requires
        a == b,
    ensures
        symbol_of(a) == symbol_of(b),
        symbol_of(a) < ALPHABET_SIZE,
{
}

/// A reaction to a message that the gatekeeper did not write never promotes,
/// whatever its key.
pub proof fn foreign_target_never_promotes(
    engine: ChallengeEngine,
    ev: ReactionEvent,
    target_author: Seq<char>,
    levels: PowerLevels,
)
    requires
        target_author != engine.gatekeeper@,
    ensures
        !engine.reaction_promotes(ev, target_author, levels),
{
}

/// Verification is terminal: a user already at the room's default send
/// level is never promoted again, so no promotion lowers anyone's level.
pub proof fn verified_is_terminal(
    engine: ChallengeEngine,
    ev: ReactionEvent,
    target_author: Seq<char>,
    levels: PowerLevels,
)
    requires
        levels.user_level(ev.sender@) >= levels.events_default,
    ensures
        !engine.reaction_promotes(ev, target_author, levels),
{
}

/// A join older than the staleness bound never gets a challenge.
pub proof fn stale_join_never_challenged(engine: ChallengeEngine, ev: JoinEvent, now_ms: u64)
    requires
        now_ms - ev.origin_ms > STALE_AFTER_MS,
    ensures
        !engine.join_challenged(ev, now_ms),
{
}

} // verus!
