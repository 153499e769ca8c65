//! Access-control gatekeeper for federated chat rooms: an invite gate that
//! admits visitors who pass proof-of-humanity and identity-age screening, and a
//! join challenge engine that grants posting rights once a newcomer answers a
//! per-user challenge.

pub mod challenge;
pub mod gate;
pub mod ids;
pub mod levels;
pub mod pending;
pub mod rooms;

pub use challenge::{
    challenge_symbol, challenge_text, symbol_key, ChallengeEngine, ChallengeReply, JoinEvent,
    Promotion, ReactionEvent, ALPHABET_SIZE, STALE_AFTER_MS,
};
pub use gate::{
    after_profile, confirmation, screen_account, screen_linked_account, AppState, GateError,
    InvitePolicy, ProfilePolicy, Submitted, Verification, MIN_ACCOUNT_AGE_MS,
};
pub use levels::{self_check, PowerLevels, RoomAdvisory};
pub use pending::{Invite, PendingInvite, PendingStore};
pub use rooms::{JoinRule, RoomDirectory, RoomInfo};
