use vstd::prelude::*;

verus! {

/// The server name of a user id as ruma parses it, or `None` where ruma
/// rejects the id.
pub uninterp spec fn user_id_server(user_id: Seq<char>) -> Option<Seq<char>>;

/// Relies on ruma's `UserId::parse`, which validates a user id, and on
/// `UserId::server_name`, which gives the server part of a valid one.
#[verifier::external_body]
pub(crate) fn user_server_name(user_id: &str) -> (r: Option<String>)
    ensures
        match r {
            Some(h) => user_id_server(user_id@) == Some(h@),
            None => user_id_server(user_id@) is None,
        },
{
    match ruma::UserId::parse(user_id) {
        Ok(u) => Some(u.server_name().as_str().to_owned()),
        Err(_) => None,
    }
}

} // verus!
