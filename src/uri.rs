use vstd::prelude::*;

verus! {

/// Path of the page that displays a failure.
pub const ERROR_PAGE_PATH: &'static str = "/error/info";

/// Endpoint of the identity provider that exchanges a code for a token.
pub const PROVIDER_TOKEN_URL: &'static str = "https://github.com/login/oauth/access_token";

/// Endpoint of the identity provider that returns the signed-in profile.
pub const PROVIDER_PROFILE_URL: &'static str = "https://api.github.com/user";

/// Content-service path that lists the users of an account.
pub const USER_BY_ACCOUNT_PATH: &'static str = "/v1/user_by_account";

/// Content-service path that creates a user.
pub const USER_CREATE_PATH: &'static str = "/v1/user/create";

/// The `application/x-www-form-urlencoded` text of a list of name/value pairs.
pub uninterp spec fn form_encoded_of(pairs: Seq<(Seq<char>, Seq<char>)>) -> Seq<char>;

/// The views of a list of string pairs.
pub open spec fn pairs_view(pairs: Seq<(String, String)>) -> Seq<(Seq<char>, Seq<char>)> {
    pairs.map_values(|p: (String, String)| (p.0@, p.1@))
}

/// Relies on `serde_urlencoded::to_string`: a sequence of string pairs is
/// always accepted and encoded as `name=value` parts joined by `&`, each part
/// percent-encoded; the text depends on the pairs alone.
#[verifier::external_body]
fn form_encode(pairs: &Vec<(String, String)>) -> (r: String)
    ensures
        r@ == form_encoded_of(pairs_view(pairs@)),
{
    serde_urlencoded::to_string(pairs).unwrap_or_default()
}

fn pair(name: &str, value: &str) -> (r: (String, String))
    ensures
        r.0@ == name@,
        r.1@ == value@,
{
    (String::from_str(name), String::from_str(value))
}

/// `prefix`, a `?`, then the encoded pairs.
fn with_query(prefix: &str, pairs: &Vec<(String, String)>) -> (r: String)
    ensures
        r@ == prefix@ + "?"@ + form_encoded_of(pairs_view(pairs@)),
{
    let mut s = String::from_str(prefix);
    s.append("?");
    let q = form_encode(pairs);
    s.append(q.as_str());
    s
}

/// Location of the error page for a failed `action`, with the reason
/// `err_info`; both travel percent-encoded in the query.
pub fn redirect_to_error_page(action: &str, err_info: &str) -> (r: String)
    ensures
        r@ == ERROR_PAGE_PATH@ + "?"@ + form_encoded_of(
            seq![("action"@, action@), ("err_info"@, err_info@)],
        ),
{
    let pairs = vec![pair("action", action), pair("err_info", err_info)];
    let r = with_query(ERROR_PAGE_PATH, &pairs);
    assert(pairs_view(pairs@) =~= seq![("action"@, action@), ("err_info"@, err_info@)]);
    r
}

/// Address of the provider's profile endpoint, authorised by `access_token`.
pub fn profile_uri(access_token: &str) -> (r: String)
    ensures
        r@ == PROVIDER_PROFILE_URL@ + "?"@ + form_encoded_of(
            seq![("access_token"@, access_token@)],
        ),
{
    let pairs = vec![pair("access_token", access_token)];
    let r = with_query(PROVIDER_PROFILE_URL, &pairs);
    assert(pairs_view(pairs@) =~= seq![("access_token"@, access_token@)]);
    r
}

/// The form fields sent to the provider's token endpoint.
pub fn token_request_form(client_id: &str, client_secret: &str, code: &str) -> (r: Vec<
    (String, String),
>)
    ensures
        pairs_view(r@) == seq![
            ("client_id"@, client_id@),
            ("client_secret"@, client_secret@),
            ("code"@, code@),
            ("accept"@, "json"@),
        ],
{
    let r = vec![
        pair("client_id", client_id),
        pair("client_secret", client_secret),
        pair("code", code),
        pair("accept", "json"),
    ];
    assert(pairs_view(r@) =~= seq![
        ("client_id"@, client_id@),
        ("client_secret"@, client_secret@),
        ("code"@, code@),
        ("accept"@, "json"@),
    ]);
    r
}

/// Address on the content service at `base` of `path`, with `query` appended
/// after a `?` when there is one.
pub fn content_uri(base: &str, path: &str, query: Option<&str>) -> (r: String)
    ensures
        r@ == match query {
            Some(q) => base@ + path@ + "?"@ + q@,
            None => base@ + path@,
        },
{
    let mut s = String::from_str(base);
    s.append(path);
    match query {
        Some(q) => {
            s.append("?");
            s.append(q);
        },
        None => {},
    }
    s
}

/// Address of the content-service lookup of the users of `account`.
pub fn user_lookup_uri(base: &str, account: &str) -> (r: String)
    ensures
        r@ == base@ + USER_BY_ACCOUNT_PATH@ + "?"@ + form_encoded_of(
            seq![("account"@, account@)],
        ),
{
    let pairs = vec![pair("account", account)];
    let q = form_encode(&pairs);
    assert(pairs_view(pairs@) =~= seq![("account"@, account@)]);
    content_uri(base, USER_BY_ACCOUNT_PATH, Some(q.as_str()))
}


/// The encoded form of three name/value pairs, in order.
pub fn form_fields3(n1: &str, v1: &str, n2: &str, v2: &str, n3: &str, v3: &str) -> (r: String)
    ensures
        r@ == form_encoded_of(seq![(n1@, v1@), (n2@, v2@), (n3@, v3@)]),
{
    let pairs = vec![pair(n1, v1), pair(n2, v2), pair(n3, v3)];
    let r = form_encode(&pairs);
    assert(pairs_view(pairs@) =~= seq![(n1@, v1@), (n2@, v2@), (n3@, v3@)]);
    r
}

} // verus!
