//! Session lifecycle: issuing, validating and revoking sessions in the
//! backing store. A session maps an unguessable token to a subject id and
//! lives for a fixed time from its issue; reading it never extends it.

use vstd::prelude::*;
use vstd::string::*;
use crate::identity::{Identity, identity_from_reply};
use crate::outside::{digest_hex, random_seed, sha256_hex};
use crate::store::{MemoryStore, StoreCommand};

verus! {

/// How long a session lives, in seconds (60 days).
pub const SESSION_TTL: u64 = 5184000;

/// The name of the session cookie.
pub open spec fn cookie_name_of() -> Seq<char> {
    "discux_sid"@
}

/// The store key of a session.
pub open spec fn session_key_of(token: Seq<char>) -> Seq<char> {
    "discux_sid:"@ + token
}

/// The subject that the store associates with a token.
pub open spec fn validate_model(store: Map<Seq<char>, (Seq<char>, u64)>, token: Seq<char>) -> Option<Seq<char>> {
    if store.contains_key(session_key_of(token)) {
        Some(store[session_key_of(token)].0)
    } else {
        None
    }
}

pub fn cookie_name() -> (r: String)
    ensures
        r@ == cookie_name_of(),
{
    String::from_str("discux_sid")
}

pub fn session_key(token: &String) -> (r: String)
    ensures
        r@ == session_key_of(token@),
{
    let mut key = String::from_str("discux_sid:");
    key.append(token.as_str());
    key
}

/// The session cookie that carries a token: HTTP-only, for the whole site,
/// living as long as the session.
#[derive(Debug)]
pub struct SessionCookie {
    pub name: String,
    pub value: String,
    pub path: String,
    pub max_age: u64,
    pub http_only: bool,
}

pub fn session_cookie(token: &String) -> (r: SessionCookie)
    ensures
        r.name@ == cookie_name_of(),
        r.value@ == token@,
        r.path@ == "/"@,
        r.max_age == SESSION_TTL,
        r.http_only,
{
    SessionCookie {
        name: cookie_name(),
        value: token.clone(),
        path: String::from_str("/"),
        max_age: SESSION_TTL,
        http_only: true,
    }
}

/// The write that issues a session.
pub fn create_command(subject_id: &String, token: &String) -> (r: StoreCommand)
    ensures
        r matches StoreCommand::SetEx { key, value, ttl } && key@ == session_key_of(token@)
            && value@ == subject_id@ && ttl == SESSION_TTL,
{
    StoreCommand::SetEx { key: session_key(token), value: subject_id.clone(), ttl: SESSION_TTL }
}

/// The read that validates a session.
pub fn validate_command(token: &String) -> (r: StoreCommand)
    ensures
        r matches StoreCommand::Get { key } && key@ == session_key_of(token@),
{
    StoreCommand::Get { key: session_key(token) }
}

/// The delete that revokes a session.
pub fn destroy_command(token: &String) -> (r: StoreCommand)
    ensures
        r matches StoreCommand::Delete { key } && key@ == session_key_of(token@),
{
    StoreCommand::Delete { key: session_key(token) }
}

/// The token made from 256 random bits: their SHA-256 digest in hex.
pub fn token_from_seed(seed: &[u8; 32]) -> (r: String)
    ensures
        r@ == sha256_hex(seed@),
        r@.len() == 64,
{
    digest_hex(seed)
}

/// A fresh token, from 256 bits of the thread's random generator.
pub fn new_token() -> (r: String)
    ensures
        exists|seed: Seq<u8>| seed.len() == 32 && r@ == sha256_hex(seed),
        r@.len() == 64,
{
    let seed = random_seed();
    let r = token_from_seed(&seed);
    assert(seed@.len() == 32);
    r
}

/// Issues a session for `subject_id` under `token`, living `SESSION_TTL`
/// seconds.
pub fn open_session(store: &mut MemoryStore, subject_id: &String, token: &String)
    ensures
        final(store)@ == old(store)@.insert(session_key_of(token@), (subject_id@, SESSION_TTL)),
{
    let cmd = create_command(subject_id, token);
    store.apply(&cmd);
}

/// Issues a session for `user_id` under a fresh token, living `SESSION_TTL`
/// seconds, and returns the token.
pub fn set_session(store: &mut MemoryStore, user_id: &String) -> (r: String)
    ensures
        final(store)@ == old(store)@.insert(session_key_of(r@), (user_id@, SESSION_TTL)),
        exists|seed: Seq<u8>| seed.len() == 32 && r@ == sha256_hex(seed),
{
    let token = new_token();
    open_session(store, user_id, &token);
    token
}

/// The identity a token stands for: anonymous when the store holds no
/// session for it.
pub fn validate_session(store: &MemoryStore, token: &String) -> (r: Identity)
    ensures
        r@ == validate_model(store@, token@),
{
    identity_from_reply(store.get(&session_key(token)))
}

/// Revokes the session of a token; revoking an unknown one changes nothing.
pub fn clear_session(store: &mut MemoryStore, session_id: &String)
    ensures
        final(store)@ == old(store)@.remove(session_key_of(session_id@)),
{
    let cmd = destroy_command(session_id);
    store.apply(&cmd);
}

/// A token the store holds no session for validates as anonymous.
pub proof fn lemma_unknown_token_is_anonymous(store: Map<Seq<char>, (Seq<char>, u64)>, token: Seq<char>)
    requires
        !store.contains_key(session_key_of(token)),
    ensures
        validate_model(store, token) is None,
{
}

/// Validating the token of a session just issued for a subject yields that
/// subject, whatever its time to live.
pub proof fn lemma_issued_session_validates(
    store: Map<Seq<char>, (Seq<char>, u64)>,
    token: Seq<char>,
    subject_id: Seq<char>,
    ttl: u64,
)
    ensures
        validate_model(store.insert(session_key_of(token), (subject_id, ttl)), token) == Some(subject_id),
{
}

/// Validating a token after revoking its session yields anonymous.
pub proof fn lemma_revoked_session_is_anonymous(store: Map<Seq<char>, (Seq<char>, u64)>, token: Seq<char>)
    ensures
        validate_model(store.remove(session_key_of(token)), token) is None,
{
}

} // verus!
