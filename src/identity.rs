//! Who a request comes from. Every request gets an identity before any
//! handler runs; a missing or unknown session makes it anonymous and never
//! stops the request.

use vstd::prelude::*;
use crate::session::{session_key, session_key_of};
use crate::store::StoreCommand;

verus! {

/// A user whose session was found.
#[derive(Clone, Debug)]
pub struct LoggedUser {
    pub user_id: String,
}

/// The identity attached to a request.
#[derive(Debug)]
pub enum Identity {
    Anonymous,
    Authenticated(LoggedUser),
}

impl View for Identity {
    /// The subject id, for an authenticated request.
    type V = Option<Seq<char>>;

    open spec fn view(&self) -> Option<Seq<char>> {
        match self {
            Identity::Anonymous => None,
            Identity::Authenticated(u) => Some(u.user_id@),
        }
    }
}

impl Identity {
    pub fn is_logged_in(&self) -> (r: bool)
        ensures
            r == (self@ is Some),
    {
        match self {
            Identity::Anonymous => false,
            Identity::Authenticated(_) => true,
        }
    }

    /// The subject id of an authenticated request.
    pub fn user_id(&self) -> (r: Option<String>)
        ensures
            r matches Some(s) ==> self@ == Some(s@),
            r is None ==> self@ is None,
    {
        match self {
            Identity::Anonymous => None,
            Identity::Authenticated(u) => Some(u.user_id.clone()),
        }
    }
}

/// The identity for what the store holds under a session's key.
pub fn identity_from_reply(reply: Option<String>) -> (r: Identity)
    ensures
        r@ == match reply {
            Some(s) => Some(s@),
            None => None,
        },
{
    match reply {
        Some(user_id) => Identity::Authenticated(LoggedUser { user_id }),
        None => Identity::Anonymous,
    }
}

/// The store lookup a request needs: none without a session cookie, else a
/// read of that session's key.
pub fn lookup_command(cookie_value: &Option<String>) -> (r: Option<StoreCommand>)
    ensures
        match cookie_value {
            None => r is None,
            Some(t) => r matches Some(StoreCommand::Get { key }) && key@ == session_key_of(t@),
        },
{
    match cookie_value {
        None => None,
        Some(t) => Some(StoreCommand::Get { key: session_key(t) }),
    }
}

} // verus!
