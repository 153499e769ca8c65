use bouncer::{
    self_check, Invite, JoinRule, PendingInvite, PendingStore, PowerLevels, RoomDirectory, RoomInfo,
};

fn room(id: &str, name: &str) -> RoomInfo {
    RoomInfo {
        room_id: id.to_string(),
        canonical_alias: None,
        name: Some(name.to_string()),
        join_rule: JoinRule::Public,
    }
}

fn parked(user: &str, issued_ms: u64) -> PendingInvite {
    PendingInvite {
        invite: Invite {
            room_id: "!r:example.org".to_string(),
            user_id: user.to_string(),
            cf_turnstile_response: "p".to_string(),
        },
        issued_ms,
    }
}

#[test]
fn directory_replaces_same_id() {
    let mut d = RoomDirectory::new();
    assert!(d.list_eligible_rooms().is_empty());
    d.insert(room("!a:x", "one"));
    d.insert(room("!b:x", "two"));
    d.insert(room("!a:x", "three"));
    let rooms = d.list_eligible_rooms();
    assert_eq!(rooms.len(), 2);
    assert_eq!(rooms[0].name.as_deref(), Some("three"));
    assert!(d.contains("!a:x"));
    assert!(d.contains("!b:x"));
    assert!(!d.contains("!c:x"));
}

#[test]
fn join_rule_names() {
    assert_eq!(JoinRule::Invite.as_str(), "invite");
    assert_eq!(JoinRule::Knock.as_str(), "knock");
    assert_eq!(JoinRule::Private.as_str(), "private");
    assert_eq!(JoinRule::Restricted.as_str(), "restricted");
    assert_eq!(JoinRule::KnockRestricted.as_str(), "knock_restricted");
    assert_eq!(JoinRule::Public.as_str(), "public");
    assert_eq!(JoinRule::Other("custom".to_string()).as_str(), "custom");
}

fn levels() -> PowerLevels {
    PowerLevels {
        users: vec![("@bot:x".to_string(), 100), ("@mod:x".to_string(), 50)],
        users_default: 0,
        events: vec![("m.room.message".to_string(), 10), ("m.room.power_levels".to_string(), 100)],
        events_default: 10,
        state_default: 50,
        invite: 50,
    }
}

#[test]
fn level_lookups() {
    let l = levels();
    assert_eq!(l.for_user("@bot:x"), 100);
    assert_eq!(l.for_user("@mod:x"), 50);
    assert_eq!(l.for_user("@nobody:x"), 0);
    assert_eq!(l.for_message("m.room.message"), 10);
    assert_eq!(l.for_message("m.reaction"), 10);
    assert_eq!(l.for_state("m.room.power_levels"), 100);
    assert_eq!(l.for_state("m.room.topic"), 50);
    assert!(l.user_can_invite("@bot:x"));
    assert!(l.user_can_invite("@mod:x"));
    assert!(!l.user_can_invite("@nobody:x"));
}

#[test]
fn self_check_flags() {
    let l = levels();
    let a = self_check(&l, "@bot:x");
    assert!(!a.default_can_chat);
    assert!(a.reactions_restricted);
    assert!(!a.cannot_promote);
    assert!(!a.is_clear());

    let mut good = levels();
    good.events.push(("m.reaction".to_string(), 0));
    assert!(self_check(&good, "@bot:x").is_clear());

    let a = self_check(&good, "@mod:x");
    assert!(a.cannot_promote);

    let mut open = levels();
    open.users_default = 10;
    assert!(self_check(&open, "@bot:x").default_can_chat);
}

#[test]
fn store_insert_take_purge() {
    let mut s = PendingStore::new(100);
    assert_eq!(s.ttl_ms(), 100);
    assert!(s.insert("a".to_string(), parked("@a:x", 0)));
    assert!(s.insert("b".to_string(), parked("@b:x", 50)));
    assert!(s.insert("c".to_string(), parked("@c:x", 200)));
    assert!(!s.insert("a".to_string(), parked("@z:x", 0)));
    assert_eq!(s.len(), 3);
    s.purge_expired(150);
    assert_eq!(s.len(), 2);
    assert!(!s.contains("a"));
    assert!(s.contains("b"));
    assert!(s.contains("c"));
    assert_eq!(s.take("b"), Some(parked("@b:x", 50)));
    assert_eq!(s.take("b"), None);
    assert_eq!(s.len(), 1);
}
