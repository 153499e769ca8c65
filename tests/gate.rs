use bouncer::{
    after_profile, confirmation, screen_account, screen_linked_account, AppState, GateError,
    Invite, InvitePolicy, JoinRule, PendingStore, ProfilePolicy, RoomDirectory, RoomInfo,
    Submitted, Verification, MIN_ACCOUNT_AGE_MS,
};

const ROOM: &str = "!r:example.org";
const HOUR_MS: i64 = 3_600_000;

fn state(policy: InvitePolicy) -> AppState {
    let mut rooms = RoomDirectory::new();
    rooms.insert(RoomInfo {
        room_id: ROOM.to_string(),
        canonical_alias: Some("#r:example.org".to_string()),
        name: Some("R".to_string()),
        join_rule: JoinRule::Invite,
    });
    AppState {
        rooms,
        csrf: PendingStore::new(600_000),
        policy,
        turnstile_site_key: "site".to_string(),
        turnstile_secret_key: "secret".to_string(),
    }
}

fn invite(room: &str, user: &str) -> Invite {
    Invite {
        room_id: room.to_string(),
        user_id: user.to_string(),
        cf_turnstile_response: "proof".to_string(),
    }
}

#[test]
fn unknown_room_rejected_before_verification() {
    let s = state(InvitePolicy::LinkIdentity);
    let req = invite("!nope:example.org", "@alice:example.org");
    assert_eq!(s.submit_start(&req), Err(GateError::UnknownRoom));
    assert_eq!(GateError::UnknownRoom.status(), 400);
    // Even a passed verification cannot carry an unknown room.
    let mut s = s;
    let r = s.submit_verified(req, Verification::Passed, "tok".to_string(), 1);
    assert_eq!(r, Err(GateError::UnknownRoom));
    assert_eq!(s.csrf.len(), 0);
}

#[test]
fn malformed_user_id_rejected() {
    let s = state(InvitePolicy::Direct);
    assert_eq!(s.submit_start(&invite(ROOM, "alice")), Err(GateError::MalformedUserId));
    assert_eq!(s.submit_start(&invite(ROOM, "@alice")), Err(GateError::MalformedUserId));
    assert_eq!(s.submit_start(&invite(ROOM, "@alice:example.org")), Ok(()));
    assert_eq!(GateError::MalformedUserId.status(), 400);
}

#[test]
fn failed_verification_blocks_invite_and_redirect() {
    for policy in [InvitePolicy::Direct, InvitePolicy::LinkIdentity] {
        let mut s = state(policy);
        let r = s.submit_invite(invite(ROOM, "@alice:example.org"), Verification::Failed);
        assert_eq!(r, Err(GateError::VerificationFailed));
        let r = s.submit_invite(invite(ROOM, "@alice:example.org"), Verification::Unavailable);
        assert_eq!(r, Err(GateError::VerificationUnavailable));
        assert_eq!(s.csrf.len(), 0);
    }
    assert_eq!(GateError::VerificationFailed.status(), 403);
    assert_eq!(GateError::VerificationUnavailable.status(), 500);
}

#[test]
fn direct_policy_hands_back_invite() {
    let mut s = state(InvitePolicy::Direct);
    let r = s.submit_invite(invite(ROOM, "@alice:example.org"), Verification::Passed);
    assert_eq!(r, Ok(Submitted::InviteNow(invite(ROOM, "@alice:example.org"))));
    assert_eq!(s.csrf.len(), 0);
}

#[test]
fn linking_policy_parks_under_random_token() {
    let mut s = state(InvitePolicy::LinkIdentity);
    let a = match s.submit_invite(invite(ROOM, "@alice:example.org"), Verification::Passed) {
        Ok(Submitted::Redirect(t)) => t,
        other => panic!("unexpected {:?}", other),
    };
    let b = match s.submit_invite(invite(ROOM, "@bob:example.org"), Verification::Passed) {
        Ok(Submitted::Redirect(t)) => t,
        other => panic!("unexpected {:?}", other),
    };
    assert_eq!(a.len(), 22);
    assert_ne!(a, b);
    assert!(s.csrf.contains(&a));
    assert!(s.csrf.contains(&b));
    assert_eq!(s.csrf.len(), 2);
    assert_eq!(s.complete_callback(&a), Ok(invite(ROOM, "@alice:example.org")));
}

#[test]
fn token_collision_is_refused() {
    let mut s = state(InvitePolicy::LinkIdentity);
    let tok = "fixed".to_string();
    let first = s.submit_verified(invite(ROOM, "@a:example.org"), Verification::Passed, tok.clone(), 5);
    assert_eq!(first, Ok(Submitted::Redirect(tok.clone())));
    let second = s.submit_verified(invite(ROOM, "@b:example.org"), Verification::Passed, tok.clone(), 6);
    assert_eq!(second, Err(GateError::TokenCollision));
    assert_eq!(GateError::TokenCollision.status(), 500);
    assert_eq!(s.claim_pending("fixed", 7), Ok(invite(ROOM, "@a:example.org")));
}

#[test]
fn state_token_is_single_use() {
    let mut s = state(InvitePolicy::LinkIdentity);
    s.park_invite("tok".to_string(), invite(ROOM, "@alice:example.org"), 1_000).unwrap();
    assert_eq!(s.claim_pending("tok", 2_000), Ok(invite(ROOM, "@alice:example.org")));
    assert_eq!(s.claim_pending("tok", 2_001), Err(GateError::InvalidToken));
    assert_eq!(GateError::InvalidToken.status(), 400);
}

#[test]
fn unknown_state_token_is_invalid() {
    let mut s = state(InvitePolicy::LinkIdentity);
    assert_eq!(s.complete_callback("never-issued"), Err(GateError::InvalidToken));
}

#[test]
fn expired_state_token_is_invalid_and_removed() {
    let mut s = state(InvitePolicy::LinkIdentity);
    s.park_invite("old".to_string(), invite(ROOM, "@a:example.org"), 1_000).unwrap();
    s.park_invite("edge".to_string(), invite(ROOM, "@b:example.org"), 1_000).unwrap();
    assert_eq!(s.claim_pending("old", 1_000 + 600_001), Err(GateError::InvalidToken));
    assert!(!s.csrf.contains("old"));
    assert_eq!(s.claim_pending("edge", 1_000 + 600_000), Ok(invite(ROOM, "@b:example.org")));
}

#[test]
fn young_matrix_org_account_is_rejected() {
    let now: i64 = 1_700_000_000_000;
    let r = screen_account("@bot:matrix.org", now - 2 * HOUR_MS, now);
    assert_eq!(r, Err(GateError::LikelyAbusive));
    assert_eq!(GateError::LikelyAbusive.status(), 403);
}

#[test]
fn young_matrix_org_account_is_rejected_against_clock() {
    let created = chrono::Utc::now().timestamp_millis() - 2 * HOUR_MS;
    assert_eq!(screen_linked_account("@bot:matrix.org", created), Err(GateError::LikelyAbusive));
    let created = chrono::Utc::now().timestamp_millis() - 48 * HOUR_MS;
    assert_eq!(screen_linked_account("@bot:matrix.org", created), Ok(()));
}

#[test]
fn screening_edges() {
    let now: i64 = 1_700_000_000_000;
    assert_eq!(screen_account("@bot:matrix.org", now - MIN_ACCOUNT_AGE_MS, now), Err(GateError::LikelyAbusive));
    assert_eq!(screen_account("@bot:matrix.org", now - MIN_ACCOUNT_AGE_MS - 1, now), Ok(()));
    assert_eq!(screen_account("@bot:example.org", now - HOUR_MS, now), Ok(()));
    assert_eq!(screen_account("@bot:matrix.org:8448", now - HOUR_MS, now), Ok(()));
    assert_eq!(screen_account("bot", now, now), Err(GateError::MalformedUserId));
    assert_eq!(screen_account("@bot:matrix.org", i64::MIN, i64::MAX), Ok(()));
    assert_eq!(screen_account("@bot:matrix.org", i64::MAX, i64::MIN), Err(GateError::LikelyAbusive));
}

#[test]
fn profile_policy() {
    assert_eq!(after_profile(Ok(Some("Alice".to_string())), ProfilePolicy::Required), Ok("Alice".to_string()));
    assert_eq!(after_profile(Ok(None), ProfilePolicy::Required), Ok(String::new()));
    assert_eq!(after_profile(Err(()), ProfilePolicy::Required), Err(GateError::ProfileUnavailable));
    assert_eq!(after_profile(Err(()), ProfilePolicy::BestEffort), Ok(String::new()));
    assert_eq!(GateError::ProfileUnavailable.status(), 500);
}

#[test]
fn remaining_statuses() {
    assert_eq!(GateError::TokenExchangeFailed.status(), 400);
    assert_eq!(GateError::IdentityUnavailable.status(), 500);
    assert_eq!(GateError::InviteFailed.status(), 500);
}

#[test]
fn confirmation_text() {
    assert_eq!(
        confirmation("Alice", "@alice:example.org", ROOM),
        "successfully invited user Alice (@alice:example.org) to room !r:example.org"
    );
}
