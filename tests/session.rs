use discux::identity::{identity_from_reply, lookup_command, Identity};
use discux::session::{
    clear_session, cookie_name, create_command, destroy_command, new_token, open_session, session_cookie,
    session_key, set_session, token_from_seed, validate_command, validate_session, SESSION_TTL,
};
use discux::store::{MemoryStore, StoreCommand};

fn s(x: &str) -> String {
    x.to_string()
}

fn subject(i: &Identity) -> Option<String> {
    match i {
        Identity::Anonymous => None,
        Identity::Authenticated(u) => Some(u.user_id.clone()),
    }
}

#[test]
fn unknown_token_is_anonymous() {
    let mut store = MemoryStore::new();
    open_session(&mut store, &s("u1"), &s("known"));
    let id = validate_session(&store, &s("unknown"));
    assert_eq!(subject(&id), None);
    let empty = validate_session(&MemoryStore::new(), &s(""));
    assert_eq!(subject(&empty), None);
}

#[test]
fn issued_session_validates_to_subject() {
    let mut store = MemoryStore::new();
    let token = set_session(&mut store, &s("user-42"));
    assert_eq!(store.entries, vec![(format!("discux_sid:{}", token), (s("user-42"), 5184000))]);
    let id = validate_session(&store, &token);
    assert_eq!(subject(&id), Some(s("user-42")));
    assert!(id.is_logged_in());
}

#[test]
fn revoked_session_is_anonymous() {
    let mut store = MemoryStore::new();
    let token = set_session(&mut store, &s("user-7"));
    clear_session(&mut store, &token);
    assert_eq!(subject(&validate_session(&store, &token)), None);
    // revoking again changes nothing
    clear_session(&mut store, &token);
    assert_eq!(subject(&validate_session(&store, &token)), None);
}

#[test]
fn validation_does_not_change_the_store() {
    let mut store = MemoryStore::new();
    open_session(&mut store, &s("a"), &s("t"));
    let before = store.entries.len();
    validate_session(&store, &s("t"));
    validate_session(&store, &s("t"));
    assert_eq!(store.entries.len(), before);
}

#[test]
fn sessions_are_independent() {
    let mut store = MemoryStore::new();
    open_session(&mut store, &s("alice"), &s("t1"));
    open_session(&mut store, &s("bob"), &s("t2"));
    clear_session(&mut store, &s("t1"));
    assert_eq!(subject(&validate_session(&store, &s("t1"))), None);
    assert_eq!(subject(&validate_session(&store, &s("t2"))), Some(s("bob")));
}

#[test]
fn reissue_under_same_token_replaces_subject() {
    let mut store = MemoryStore::new();
    open_session(&mut store, &s("old"), &s("t"));
    open_session(&mut store, &s("new"), &s("t"));
    assert_eq!(subject(&validate_session(&store, &s("t"))), Some(s("new")));
    assert_eq!(store.entries.len(), 1);
}

#[test]
fn token_is_sha256_hex_of_seed() {
    let t = token_from_seed(&[0u8; 32]);
    assert_eq!(t, "66687aadf862bd776c8fc18b8e9f8e20089714856ee233b3902a591d0d5f2925");
}

#[test]
fn fresh_tokens_are_long_lowercase_hex_and_differ() {
    let a = new_token();
    let b = new_token();
    assert_eq!(a.len(), 64);
    assert!(a.chars().all(|c| c.is_ascii_digit() || ('a'..='f').contains(&c)));
    assert_ne!(a, b);
}

#[test]
fn keys_and_cookie_names() {
    assert_eq!(cookie_name(), "discux_sid");
    assert_eq!(session_key(&s("abc")), "discux_sid:abc");
    let c = session_cookie(&s("tok"));
    assert_eq!(c.name, "discux_sid");
    assert_eq!(c.value, "tok");
    assert_eq!(c.path, "/");
    assert_eq!(c.max_age, 5184000);
    assert_eq!(SESSION_TTL, 60 * 24 * 3600);
    assert!(c.http_only);
}

#[test]
fn store_commands_name_the_session_key() {
    match create_command(&s("u"), &s("t")) {
        StoreCommand::SetEx { key, value, ttl } => {
            assert_eq!(key, "discux_sid:t");
            assert_eq!(value, "u");
            assert_eq!(ttl, 5184000);
        }
        other => panic!("unexpected {:?}", other),
    }
    assert!(matches!(validate_command(&s("t")), StoreCommand::Get { key } if key == "discux_sid:t"));
    assert!(matches!(destroy_command(&s("t")), StoreCommand::Delete { key } if key == "discux_sid:t"));
}

#[test]
fn middleware_without_cookie_needs_no_lookup() {
    assert!(lookup_command(&None).is_none());
    assert!(matches!(lookup_command(&Some(s("x"))), Some(StoreCommand::Get { key }) if key == "discux_sid:x"));
    assert_eq!(subject(&identity_from_reply(None)), None);
    assert_eq!(subject(&identity_from_reply(Some(s("u9")))), Some(s("u9")));
}

#[test]
fn memory_store_get_set_delete() {
    let mut store = MemoryStore::new();
    assert_eq!(store.get(&s("k")), None);
    store.set(&s("k"), &s("v1"), 10);
    store.set(&s("j"), &s("w"), 20);
    store.set(&s("k"), &s("v2"), 30);
    assert_eq!(store.entries.len(), 2);
    assert_eq!(store.get(&s("k")), Some(s("v2")));
    assert_eq!(store.get(&s("j")), Some(s("w")));
    store.delete(&s("k"));
    assert_eq!(store.get(&s("k")), None);
    assert_eq!(store.get(&s("j")), Some(s("w")));
    assert_eq!(store.apply(&StoreCommand::Get { key: s("j") }), Some(s("w")));
    assert_eq!(store.apply(&StoreCommand::Delete { key: s("j") }), None);
    assert_eq!(store.get(&s("j")), None);
}
