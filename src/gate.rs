use vstd::prelude::*;
use vstd::string::StringExecFns;

use crate::ids::{user_id_server, user_server_name};
use crate::pending::{is_expired, Invite, PendingInvite, PendingStore};
use crate::rooms::RoomDirectory;

verus! {

/// Why the invite gate turned a request down.
#[derive(Debug, Clone, Copy, PartialEq, Eq)]
pub enum GateError {
    /// The room is not in the snapshot of eligible rooms.
    UnknownRoom,
    /// The user id is not a valid user id.
    MalformedUserId,
    /// The proof-of-humanity token was rejected.
    VerificationFailed,
    /// The verification service could not be asked.
    VerificationUnavailable,
    /// The callback's state token is unknown, already used or expired.
    InvalidToken,
    /// A freshly drawn state token was already in use.
    TokenCollision,
    /// The identity provider refused the authorization code.
    TokenExchangeFailed,
    /// The linked identity's profile could not be fetched.
    IdentityUnavailable,
    /// The account looks like a throwaway: new, from a high-abuse server.
    LikelyAbusive,
    /// The invitee's profile could not be fetched.
    ProfileUnavailable,
    /// The room service refused the invite.
    InviteFailed,
}

/// The HTTP status that answers each error.
pub open spec fn status_of(e: GateError) -> u16 {
    match e {
        GateError::UnknownRoom => 400,
        GateError::MalformedUserId => 400,
        GateError::VerificationFailed => 403,
        GateError::VerificationUnavailable => 500,
        GateError::InvalidToken => 400,
        GateError::TokenCollision => 500,
        GateError::TokenExchangeFailed => 400,
        GateError::IdentityUnavailable => 500,
        GateError::LikelyAbusive => 403,
        GateError::ProfileUnavailable => 500,
        GateError::InviteFailed => 500,
    }
}

impl GateError {
    /// The HTTP status that answers this error.
    pub fn status(&self) -> (r: u16)
        ensures
            r == status_of(*self),
    {
        match self {
            GateError::UnknownRoom => 400,
            GateError::MalformedUserId => 400,
            GateError::VerificationFailed => 403,
            GateError::VerificationUnavailable => 500,
            GateError::InvalidToken => 400,
            GateError::TokenCollision => 500,
            GateError::TokenExchangeFailed => 400,
            GateError::IdentityUnavailable => 500,
            GateError::LikelyAbusive => 403,
            GateError::ProfileUnavailable => 500,
            GateError::InviteFailed => 500,
        }
    }
}

/// What the verification service said of a proof-of-humanity token.
#[derive(Debug, Clone, Copy, PartialEq, Eq)]
pub enum Verification {
    Passed,
    Failed,
    Unavailable,
}

/// Whether an invite is issued at once or only after the visitor links a
/// third-party identity.
#[derive(Debug, Clone, Copy, PartialEq, Eq)]
pub enum InvitePolicy {
    Direct,
    LinkIdentity,
}

/// Whether a failed profile fetch aborts an invite.
#[derive(Debug, Clone, Copy, PartialEq, Eq)]
pub enum ProfilePolicy {
    Required,
    BestEffort,
}

/// What to do with a request that cleared every check.
#[derive(Debug, PartialEq, Eq)]
pub enum Submitted {
    /// Issue the invite now.
    InviteNow(Invite),
    /// Send the visitor to the identity provider with this state token.
    Redirect(String),
}

/// The outcome of the checks made before anything is asked of a
/// collaborator: the room must be eligible and the user id valid.
pub open spec fn precheck(rooms: RoomDirectory, room_id: Seq<char>, user_id: Seq<char>) -> Result<
    (),
    GateError,
> {
    if !rooms.has_room(room_id) {
        Err(GateError::UnknownRoom)
    } else if user_id_server(user_id) is None {
        Err(GateError::MalformedUserId)
    } else {
        Ok(())
    }
}

/// How a request fares once the verification service has replied.
pub open spec fn submit_decision(
    rooms: RoomDirectory,
    room_id: Seq<char>,
    user_id: Seq<char>,
    verification: Verification,
) -> Result<(), GateError> {
    match precheck(rooms, room_id, user_id) {
        Err(e) => Err(e),
        Ok(_) => match verification {
            Verification::Passed => Ok(()),
            Verification::Failed => Err(GateError::VerificationFailed),
            Verification::Unavailable => Err(GateError::VerificationUnavailable),
        },
    }
}

/// What claiming `token` at `now_ms` yields from the parked invites `m`.
pub open spec fn claim_outcome(
    m: Map<Seq<char>, PendingInvite>,
    token: Seq<char>,
    now_ms: u64,
    ttl_ms: u64,
) -> Result<Invite, GateError> {
    if m.contains_key(token) && !is_expired(m[token].issued_ms, now_ms, ttl_ms) {
        Ok(m[token].invite)
    } else {
        Err(GateError::InvalidToken)
    }
}

/// One day, in milliseconds: linked accounts younger than this are suspect.
pub const MIN_ACCOUNT_AGE_MS: i64 = 86_400_000;

/// The server whose accounts are screened by linked-account age.
pub open spec fn high_abuse_server() -> Seq<char> {
    "matrix.org"@
}

/// The screening decision on a user whose server part is `server`, with a
/// linked account created at `created_ms`, judged at `now_ms`.
pub open spec fn screen_decision(server: Option<Seq<char>>, created_ms: i64, now_ms: i64) -> Result<
    (),
    GateError,
> {
    match server {
        None => Err(GateError::MalformedUserId),
        Some(h) => if h == high_abuse_server() && now_ms - created_ms <= MIN_ACCOUNT_AGE_MS {
            Err(GateError::LikelyAbusive)
        } else {
            Ok(())
        },
    }
}

/// Relies on oauth2's `CsrfToken::new_random`: 16 random bytes, base64url
/// encoded without padding, which is 22 characters.
#[verifier::external_body]
fn fresh_state_token() -> (r: String)
    ensures
        r@.len() == 22,
{
    oauth2::CsrfToken::new_random().secret().to_owned()
}

/// Relies on chrono's `Utc::now` and `timestamp_millis`: the time now, in
/// milliseconds since the Unix epoch.
#[verifier::external_body]
fn clock_ms() -> (r: i64) {
    chrono::Utc::now().timestamp_millis()
}

/// The time now in milliseconds, with times before the epoch read as zero.
fn clock_ms_unsigned() -> (r: u64) {
    let t = clock_ms();
    if t <= 0 {
        0
    } else {
        t as u64
    }
}

/// The invite gate: the eligible rooms, the parked invites, the policy, and
/// the keys of the verification service.
pub struct AppState {
    pub rooms: RoomDirectory,
    pub csrf: PendingStore,
    pub policy: InvitePolicy,
    pub turnstile_site_key: String,
    pub turnstile_secret_key: String,
}

impl AppState {
    /// Both the snapshot and the store are well formed.
    pub open spec fn wf(&self) -> bool {
        self.rooms.wf() && self.csrf.wf()
    }

    /// The checks made before the verification service is asked: an unknown
    /// room is rejected first, then a malformed user id. `Ok` means the
    /// verification service is to be asked next.
    pub fn submit_start(&self, invite: &Invite) -> (r: Result<(), GateError>)
        ensures
            r == precheck(self.rooms, invite.room_id@, invite.user_id@),
    {
        if !self.rooms.contains(invite.room_id.as_str()) {
            return Err(GateError::UnknownRoom);
        }
        match user_server_name(invite.user_id.as_str()) {
            None => Err(GateError::MalformedUserId),
            Some(_) => Ok(()),
        }
    }

    /// Parks `invite` under `token`, issued at `now_ms`.
    pub fn park_invite(&mut self, token: String, invite: Invite, now_ms: u64) -> (r: Result<
        String,
        GateError,
    >)
        requires
            old(self).wf(),
        ensures
            final(self).wf(),
            final(self).rooms == old(self).rooms,
            final(self).policy == old(self).policy,
            final(self).csrf.ttl() == old(self).csrf.ttl(),
            old(self).csrf@.contains_key(token@) ==> r == Err::<String, GateError>(
                GateError::TokenCollision,
            ) && final(self).csrf@ == old(self).csrf@,
            !old(self).csrf@.contains_key(token@) ==> (r matches Ok(t) && t@ == token@
                && final(self).csrf@ == old(self).csrf@.insert(
                token@,
                (PendingInvite { invite, issued_ms: now_ms }),
            )),
    {
        let key = token.clone();
        if self.csrf.insert(token, PendingInvite { invite, issued_ms: now_ms }) {
            Ok(key)
        } else {
            Err(GateError::TokenCollision)
        }
    }

    /// Decides a request once the verification service answered, with
    /// `token` as the state token to use and `now_ms` as the time. A request
    /// that fails a check changes nothing; under the direct policy the invite
    /// is handed back to be issued; otherwise it is parked under `token`.
    pub fn submit_verified(
        &mut self,
        invite: Invite,
        verification: Verification,
        token: String,
        now_ms: u64,
    ) -> (r: Result<Submitted, GateError>)
        requires
            old(self).wf(),
        ensures
            final(self).wf(),
            final(self).rooms == old(self).rooms,
            final(self).policy == old(self).policy,
            final(self).csrf.ttl() == old(self).csrf.ttl(),
            ({
                let decision = submit_decision(
                    old(self).rooms,
                    invite.room_id@,
                    invite.user_id@,
                    verification,
                );
                match decision {
                    Err(e) => r == Err::<Submitted, GateError>(e) && final(self).csrf@ == old(
                        self,
                    ).csrf@,
                    Ok(_) => if old(self).policy == InvitePolicy::Direct {
                        r == Ok::<Submitted, GateError>(Submitted::InviteNow(invite))
                            && final(self).csrf@ == old(self).csrf@
                    } else if old(self).csrf@.contains_key(token@) {
                        r == Err::<Submitted, GateError>(GateError::TokenCollision)
                            && final(self).csrf@ == old(self).csrf@
                    } else {
                        r matches Ok(Submitted::Redirect(t)) && t@ == token@
                            && final(self).csrf@ == old(self).csrf@.insert(
                            token@,
                            (PendingInvite { invite, issued_ms: now_ms }),
                        )
                    },
                }
            }),
    {
        match self.submit_start(&invite) {
            Err(e) => return Err(e),
            Ok(_) => {},
        }
        match verification {
            Verification::Passed => {},
            Verification::Failed => return Err(GateError::VerificationFailed),
            Verification::Unavailable => return Err(GateError::VerificationUnavailable),
        }
        match self.policy {
            InvitePolicy::Direct => Ok(Submitted::InviteNow(invite)),
            InvitePolicy::LinkIdentity => match self.park_invite(token, invite, now_ms) {
                Ok(t) => Ok(Submitted::Redirect(t)),
                Err(e) => Err(e),
            },
        }
    }

    /// Decides a request once the verification service answered, drawing a
    /// fresh random state token and reading the clock.
    pub fn submit_invite(&mut self, invite: Invite, verification: Verification) -> (r: Result<
        Submitted,
        GateError,
    >)
        requires
            old(self).wf(),
        ensures
            final(self).wf(),
            final(self).rooms == old(self).rooms,
            final(self).policy == old(self).policy,
            final(self).csrf.ttl() == old(self).csrf.ttl(),
            ({
                let decision = submit_decision(
                    old(self).rooms,
                    invite.room_id@,
                    invite.user_id@,
                    verification,
                );
                match decision {
                    Err(e) => r == Err::<Submitted, GateError>(e) && final(self).csrf@ == old(
                        self,
                    ).csrf@,
                    Ok(_) => if old(self).policy == InvitePolicy::Direct {
                        r == Ok::<Submitted, GateError>(Submitted::InviteNow(invite))
                            && final(self).csrf@ == old(self).csrf@
                    } else {
                        ||| r == Err::<Submitted, GateError>(GateError::TokenCollision)
                            && final(self).csrf@ == old(self).csrf@
                        ||| r matches Ok(Submitted::Redirect(t)) && !old(self).csrf@.contains_key(t@)
                            && final(self).csrf@ == old(self).csrf@.insert(t@, final(self).csrf@[t@])
                            && final(self).csrf@[t@].invite == invite
                    },
                }
            }),
    {
        let token = fresh_state_token();
        let now_ms = clock_ms_unsigned();
        self.submit_verified(invite, verification, token, now_ms)
    }

    /// Claims the invite parked under `state` at `now_ms`. The entry is
    /// removed whatever the outcome, so a token serves once.
    pub fn claim_pending(&mut self, state: &str, now_ms: u64) -> (r: Result<Invite, GateError>)
        requires
            old(self).wf(),
        ensures
            final(self).wf(),
            final(self).rooms == old(self).rooms,
            final(self).policy == old(self).policy,
            final(self).csrf.ttl() == old(self).csrf.ttl(),
            final(self).csrf@ == old(self).csrf@.remove(state@),
            r == claim_outcome(old(self).csrf@, state@, now_ms, old(self).csrf.ttl()),
    {
        let ttl = self.csrf.ttl_ms();
        match self.csrf.take(state) {
            None => Err(GateError::InvalidToken),
            Some(p) => {
                if now_ms > p.issued_ms && now_ms - p.issued_ms > ttl {
                    Err(GateError::InvalidToken)
                } else {
                    Ok(p.invite)
                }
            },
        }
    }

    /// Claims the invite parked under `state`, reading the clock.
    pub fn complete_callback(&mut self, state: &str) -> (r: Result<Invite, GateError>)
        requires
            old(self).wf(),
        ensures
            final(self).wf(),
            final(self).rooms == old(self).rooms,
            final(self).policy == old(self).policy,
            final(self).csrf.ttl() == old(self).csrf.ttl(),
            final(self).csrf@ == old(self).csrf@.remove(state@),
            !old(self).csrf@.contains_key(state@) ==> r == Err::<Invite, GateError>(
                GateError::InvalidToken,
            ),
            r matches Ok(i) ==> old(self).csrf@.contains_key(state@) && i == old(
                self,
            ).csrf@[state@].invite,
    {
        let now_ms = clock_ms_unsigned();
        self.claim_pending(state, now_ms)
    }
}

/// Screens the linked account of the user `user_id`: created at
/// `created_ms`, judged at `now_ms`. A user from the high-abuse server whose
/// linked account is at most a day old is turned away.
pub fn screen_account(user_id: &str, created_ms: i64, now_ms: i64) -> (r: Result<(), GateError>)
    ensures
        r == screen_decision(user_id_server(user_id@), created_ms, now_ms),
{
    match user_server_name(user_id) {
        None => Err(GateError::MalformedUserId),
        Some(h) => {
            let suspect = "matrix.org".to_owned();
            if h == suspect && (now_ms as i128) - (created_ms as i128) <= MIN_ACCOUNT_AGE_MS as i128 {
                Err(GateError::LikelyAbusive)
            } else {
                Ok(())
            }
        },
    }
}

/// Screens the linked account of `user_id`, created at `created_ms`, against
/// the clock.
pub fn screen_linked_account(user_id: &str, created_ms: i64) -> (r: Result<(), GateError>)
    ensures
        user_id_server(user_id@) is None <==> r == Err::<(), GateError>(GateError::MalformedUserId),
        r == Err::<(), GateError>(GateError::LikelyAbusive) ==> user_id_server(user_id@) == Some(
            high_abuse_server(),
        ),
        (user_id_server(user_id@) matches Some(h) && h != high_abuse_server()) ==> r is Ok,
{
    let now_ms = clock_ms();
    screen_account(user_id, created_ms, now_ms)
}

/// Decides the invite action once the invitee's profile was fetched:
/// `profile` is the display name found, or `Err` where the fetch failed. The
/// display name to confirm with, empty where none is known, or the error that
/// aborts the invite.
pub fn after_profile(profile: Result<Option<String>, ()>, policy: ProfilePolicy) -> (r: Result<
    String,
    GateError,
>)
    ensures
        match profile {
            Ok(Some(name)) => r matches Ok(s) && s@ == name@,
            Ok(None) => r matches Ok(s) && s@.len() == 0,
            Err(_) => if policy == ProfilePolicy::Required {
                r == Err::<String, GateError>(GateError::ProfileUnavailable)
            } else {
                r matches Ok(s) && s@.len() == 0
            },
        },
{
    match profile {
        Ok(Some(name)) => Ok(name),
        Ok(None) => Ok(String::new()),
        Err(_) => match policy {
            ProfilePolicy::Required => Err(GateError::ProfileUnavailable),
            ProfilePolicy::BestEffort => Ok(String::new()),
        },
    }
}

/// The confirmation shown once an invite was issued.
pub open spec fn confirmation_text(
    display_name: Seq<char>,
    user_id: Seq<char>,
    room_id: Seq<char>,
) -> Seq<char> {
    "successfully invited user "@ + display_name + " ("@ + user_id + ") to room "@ + room_id
}

/// The confirmation shown once `user_id`, known as `display_name`, was
/// invited to `room_id`.
pub fn confirmation(display_name: &str, user_id: &str, room_id: &str) -> (r: String)
    ensures
        r@ == confirmation_text(display_name@, user_id@, room_id@),
{
    let mut text = "successfully invited user ".to_owned();
    text.append(display_name);
    text.append(" (");
    text.append(user_id);
    text.append(") to room ");
    text.append(room_id);
    text
}

/// A room absent from the snapshot is rejected before anything else is
/// checked, and so before the verification service or the room service is
/// asked, whatever the verification would have said.
pub proof fn unknown_room_rejected_first(
    rooms: RoomDirectory,
    room_id: Seq<char>,
    user_id: Seq<char>,
    verification: Verification,
)
    requires
        !rooms.has_room(room_id),
    ensures
        precheck(rooms, room_id, user_id) == Err::<(), GateError>(GateError::UnknownRoom),
        submit_decision(rooms, room_id, user_id, verification) == Err::<(), GateError>(
            GateError::UnknownRoom,
        ),
{
}

/// A verification that did not pass blocks the request: the decision is an
/// error, so no invite is handed back and nothing is parked.
pub proof fn failed_verification_blocks(
    rooms: RoomDirectory,
    room_id: Seq<char>,
    user_id: Seq<char>,
    verification: Verification,
)
    requires
        verification != Verification::Passed,
    ensures
        submit_decision(rooms, room_id, user_id, verification) is Err,
{
}

/// A state token serves once: after a claim, claiming it again fails with
/// an invalid token, at any later time.
pub proof fn state_token_single_use(
    m: Map<Seq<char>, PendingInvite>,
    token: Seq<char>,
    later_ms: u64,
    ttl_ms: u64,
)
    ensures
        claim_outcome(m.remove(token), token, later_ms, ttl_ms) == Err::<Invite, GateError>(
            GateError::InvalidToken,
        ),
{
}

} // verus!
