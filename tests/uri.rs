use gutp_gateway::uri::{
    content_uri, form_fields3, profile_uri, redirect_to_error_page, token_request_form,
    user_lookup_uri,
};

#[test]
fn error_redirect_is_percent_encoded() {
    assert_eq!(
        redirect_to_error_page("Register user", "registration failed"),
        "/error/info?action=Register+user&err_info=registration+failed"
    );
    assert_eq!(
        redirect_to_error_page("a&b=c", "100%"),
        "/error/info?action=a%26b%3Dc&err_info=100%25"
    );
}

#[test]
fn profile_uri_encodes_token() {
    assert_eq!(
        profile_uri("tok en&"),
        "https://api.github.com/user?access_token=tok+en%26"
    );
}

#[test]
fn token_form_fields() {
    let f = token_request_form("id", "secret", "abc");
    let expected: Vec<(String, String)> = vec![
        ("client_id".to_string(), "id".to_string()),
        ("client_secret".to_string(), "secret".to_string()),
        ("code".to_string(), "abc".to_string()),
        ("accept".to_string(), "json".to_string()),
    ];
    assert_eq!(f, expected);
}

#[test]
fn content_uri_with_and_without_query() {
    assert_eq!(
        content_uri("http://127.0.0.1:3000", "/v1/x", Some("a=1")),
        "http://127.0.0.1:3000/v1/x?a=1"
    );
    assert_eq!(
        content_uri("http://127.0.0.1:3000", "/v1/x", None),
        "http://127.0.0.1:3000/v1/x"
    );
}

#[test]
fn user_lookup_uri_encodes_account() {
    assert_eq!(
        user_lookup_uri("http://h", "u 1"),
        "http://h/v1/user_by_account?account=u+1"
    );
}

#[test]
fn three_fields_in_order() {
    assert_eq!(form_fields3("a", "1", "b", "x y", "c", ""), "a=1&b=x+y&c=");
}
