use gutp_gateway::session::{
    session_cookie, session_from_seed, session_key, session_write_for, set_session, SESSION_TTL,
};

#[test]
fn session_key_prefixes_token() {
    assert_eq!(session_key("abc"), "meblog_session:abc");
    assert_eq!(session_key(""), "meblog_session:");
}

#[test]
fn session_write_targets_the_lookup_key() {
    let w = session_write_for("tok", "u1", 30);
    assert_eq!(w.token, "tok");
    assert_eq!(w.key, "meblog_session:tok");
    assert_eq!(w.account, "u1");
    assert_eq!(w.ttl_secs, 30);
}

#[test]
fn session_token_is_digest_of_seed() {
    let w = session_from_seed(&[0u8; 32], "u1");
    assert_eq!(
        w.token,
        "66687aadf862bd776c8fc18b8e9f8e20089714856ee233b3902a591d0d5f2925"
    );
    assert_eq!(w.key, format!("meblog_session:{}", w.token));
    assert_eq!(w.account, "u1");
    assert_eq!(w.ttl_secs, 60 * 24 * 3600);
}

#[test]
fn fresh_sessions_differ() {
    let a = set_session("u1");
    let b = set_session("u1");
    assert_eq!(a.token.len(), 64);
    assert!(a.token.chars().all(|c| c.is_ascii_hexdigit() && !c.is_ascii_uppercase()));
    assert_ne!(a.token, b.token);
    assert_eq!(a.key, format!("meblog_session:{}", a.token));
    assert_eq!(a.ttl_secs, SESSION_TTL);
}

#[test]
fn session_cookie_attributes() {
    let c = session_cookie("tok");
    assert_eq!(c.name, "meblog_sid");
    assert_eq!(c.value, "tok");
    assert_eq!(c.path, "/");
    assert_eq!(c.max_age_secs, 5184000);
    assert!(c.http_only);
}
