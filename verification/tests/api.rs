use vpnht::api::{
    clock_time_of, CHRONO_MAX, CHRONO_MIN,
    login_query, new_session, signup_query, ApiClient, AppError, AuthTokens, GraphQLError,
    GraphQLResponse, LoginResponse, LoginResult, ServersData, SignupResponse, SignupResult,
    SERVERS_QUERY, VPNHT_API_URL,
};

fn login_ok(success: bool) -> Result<GraphQLResponse<LoginResponse>, String> {
    Ok(GraphQLResponse { data: Some(LoginResponse { login: LoginResult { success } }), errors: None })
}

fn signup_ok(success: bool) -> Result<GraphQLResponse<SignupResponse>, String> {
    Ok(GraphQLResponse { data: Some(SignupResponse { signup: SignupResult { success } }), errors: None })
}

fn gql_error(message: &str) -> GraphQLError {
    GraphQLError { message: message.to_string(), code: None }
}

#[test]
fn queries_escape_double_quotes() {
    assert_eq!(
        login_query("a@b.c", "p\"w"),
        "mutation { login(email: \"a@b.c\", password: \"p\\\"w\") { success } }"
    );
    assert_eq!(
        signup_query("x", "y"),
        "mutation { signup(email: \"x\", password: \"y\") { success } }"
    );
}

#[test]
fn client_addresses() {
    let c = ApiClient::new();
    assert_eq!(c.base_url(), VPNHT_API_URL);
    assert_eq!(c.graphql_url(), "https://my.vpn.ht/graphql");
    let c = ApiClient::new_with_url("http://localhost:8080");
    assert_eq!(c.graphql_url(), "http://localhost:8080/graphql");
    assert_eq!(c.tokens(), None);
}

#[test]
fn extract_data_cases() {
    let c = ApiClient::new();
    let both: GraphQLResponse<u32> = GraphQLResponse { data: Some(1), errors: Some(vec![gql_error("a"), gql_error("b")]) };
    assert_eq!(c.extract_data(both), Err(AppError::Network("a, b".to_string())));
    let data: GraphQLResponse<u32> = GraphQLResponse { data: Some(7), errors: None };
    assert_eq!(c.extract_data(data), Ok(7));
    let empty: GraphQLResponse<u32> = GraphQLResponse { data: None, errors: None };
    assert_eq!(c.extract_data(empty), Err(AppError::Network("Empty API response".to_string())));
    let no_errors: GraphQLResponse<u32> = GraphQLResponse { data: None, errors: Some(vec![]) };
    assert_eq!(c.extract_data(no_errors), Err(AppError::Network(String::new())));
}

#[test]
fn login_reply_cases() {
    let c = ApiClient::new();
    assert_eq!(
        c.login_reply("{\"errors\":[{\"code\":\"INVALID_CREDENTIALS\"}]}", login_ok(true)),
        Err(AppError::Auth("Invalid email or password".to_string()))
    );
    assert_eq!(
        c.login_reply("Email or Password Invalid", Err("ignored".to_string())),
        Err(AppError::Auth("Invalid email or password".to_string()))
    );
    assert_eq!(
        c.login_reply("<html>", Err("expected value at line 1 column 1".to_string())),
        Err(AppError::Network("Failed to parse response: expected value at line 1 column 1 (raw: <html>)".to_string()))
    );
    let long = "x".repeat(250);
    assert_eq!(
        c.login_reply(&long, Err("e".to_string())),
        Err(AppError::Network(format!("Failed to parse response: e (raw: {})", "x".repeat(200))))
    );
    let with_errors = Ok(GraphQLResponse { data: None, errors: Some(vec![gql_error("bad"), gql_error("worse")]) });
    assert_eq!(c.login_reply("{}", with_errors), Err(AppError::Auth("Login failed: bad, worse".to_string())));
    let empty = Ok(GraphQLResponse { data: None, errors: None });
    assert_eq!(c.login_reply("{}", empty), Err(AppError::Network("Empty API response".to_string())));
    assert_eq!(c.login_reply("{}", login_ok(false)), Err(AppError::Auth("Login failed".to_string())));
    assert_eq!(c.login_reply("{}", login_ok(true)), Ok(()));
}

#[test]
fn signup_reply_cases() {
    let c = ApiClient::new();
    assert_eq!(c.signup_reply("EMAIL_EXISTS", signup_ok(true)), Err(AppError::Auth("Email already registered".to_string())));
    assert_eq!(c.signup_reply("user already exists", signup_ok(true)), Err(AppError::Auth("Email already registered".to_string())));
    assert_eq!(c.signup_reply("<html>", Err("eof".to_string())), Err(AppError::Network("Failed to parse response: eof".to_string())));
    let with_errors = Ok(GraphQLResponse { data: None, errors: Some(vec![gql_error("nope")]) });
    assert_eq!(c.signup_reply("{}", with_errors), Err(AppError::Auth("Signup failed: nope".to_string())));
    assert_eq!(c.signup_reply("{}", Ok(GraphQLResponse { data: None, errors: None })), Err(AppError::Network("Empty API response".to_string())));
    assert_eq!(c.signup_reply("{}", signup_ok(false)), Err(AppError::Auth("Signup failed".to_string())));
    assert_eq!(c.signup_reply("{}", signup_ok(true)), Ok(()));
}

#[test]
fn new_session_fields() {
    let (user, tokens) = new_session("John@Example.com", 1_700_000_000, "id-a", "id-b");
    assert_eq!(user.id, "john_example.com");
    assert_eq!(user.email, "John@Example.com");
    assert_eq!(user.subscription.plan, "premium");
    assert_eq!(user.subscription.expires_at, "2099-12-31");
    assert!(user.subscription.is_active);
    assert_eq!(tokens.access_token, "vpnht_id-a");
    assert_eq!(tokens.refresh_token, "refresh_id-b");
    assert_eq!(tokens.expires_at, 1_700_086_400);
}

#[test]
fn login_keeps_the_tokens_it_returns() {
    let mut c = ApiClient::new();
    let (user, tokens) = c
        .login("A@B.io", "{\"data\":{\"login\":{\"success\":true}}}", login_ok(true), "id-1", "id-2")
        .unwrap();
    assert_eq!(user.id, "a_b.io");
    assert_eq!(c.tokens(), Some(tokens.clone()));
    assert_eq!(tokens.access_token, "vpnht_id-1");
    assert_eq!(tokens.refresh_token, "refresh_id-2");
    let now = std::time::SystemTime::now().duration_since(std::time::UNIX_EPOCH).unwrap().as_secs() as i64;
    assert!((tokens.expires_at - 86_400 - now).abs() <= 5);
}

#[test]
fn failed_login_keeps_the_session() {
    let mut c = ApiClient::new();
    let kept = AuthTokens { access_token: "a".to_string(), refresh_token: "r".to_string(), expires_at: 5 };
    c.set_tokens(kept.clone());
    assert_eq!(c.login("x@y", "{}", login_ok(false), "a", "b"), Err(AppError::Auth("Login failed".to_string())));
    assert_eq!(c.tokens(), Some(kept));
}

#[test]
fn signup_signs_in() {
    let mut c = ApiClient::new();
    let (user, tokens) = c.signup("New@User.net", "{}", signup_ok(true), "a", "b").unwrap();
    assert_eq!(user.id, "new_user.net");
    assert_eq!(c.tokens(), Some(tokens));
}

#[test]
fn refresh_token_signs_out() {
    let mut c = ApiClient::new();
    c.set_tokens(AuthTokens { access_token: "a".to_string(), refresh_token: "r".to_string(), expires_at: 1 });
    assert_eq!(c.refresh_token(), Err(AppError::Auth("Session expired. Please log in again.".to_string())));
    assert_eq!(c.tokens(), None);
    c.clear_tokens();
    assert_eq!(c.tokens(), None);
}

#[test]
fn user_ids_hold_no_at_sign() {
    for email in ["a@b", "@@", "MiXeD@Case.Org", "no-at"] {
        let (user, _) = new_session(email, 0, "a", "b");
        assert!(!user.id.contains('@'), "{}", email);
    }
}

#[test]
fn quoted_credentials_stay_in_their_literal() {
    // a credential with a quote but no backslash stays inside the string
    let q = login_query("a\"b", "c");
    assert!(q.starts_with("mutation { login(email: \"a\\\"b\", password: \"c\")"));
}

#[test]
fn servers_come_from_data_or_not_at_all() {
    let c = ApiClient::new();
    let with = |servers: Vec<&'static str>| Some(Ok(GraphQLResponse { data: Some(ServersData { servers }), errors: Some(vec![gql_error("x")]) }));
    assert_eq!(c.servers_from_reply(with(vec!["nl-1", "de-2"])), vec!["nl-1", "de-2"]);
    assert_eq!(c.servers_from_reply::<&str>(Some(Ok(GraphQLResponse { data: None, errors: None }))), Vec::<&str>::new());
    assert_eq!(c.servers_from_reply::<&str>(Some(Err("bad json".to_string()))), Vec::<&str>::new());
    assert_eq!(c.servers_from_reply::<&str>(None), Vec::<&str>::new());
    assert!(SERVERS_QUERY.contains("query GetServers"));
}

#[test]
fn refused_signup_keeps_the_session() {
    let mut c = ApiClient::new();
    assert_eq!(
        c.signup("a@b", "EMAIL_EXISTS", signup_ok(true), "x", "y"),
        Err(AppError::Auth("Email already registered".to_string()))
    );
    assert_eq!(c.tokens(), None);
}

#[test]
fn clock_readings_within_chrono_dates() {
    assert_eq!(clock_time_of(None), None);
    assert_eq!(clock_time_of(Some(0)), Some(0));
    assert_eq!(clock_time_of(Some(1_700_000_000)), Some(1_700_000_000));
    assert_eq!(clock_time_of(Some(CHRONO_MAX as u64)), Some(CHRONO_MAX));
    assert_eq!(clock_time_of(Some(CHRONO_MAX as u64 + 1)), None);
    // readings past i64::MAX wrap, as `as i64` does
    assert_eq!(clock_time_of(Some(CHRONO_MIN as u64)), Some(CHRONO_MIN));
    assert_eq!(clock_time_of(Some((CHRONO_MIN - 1) as u64)), None);
    assert_eq!(clock_time_of(Some(u64::MAX)), Some(-1));
}

#[test]
fn login_at_opens_the_session_at_the_clock_time() {
    let mut c = ApiClient::new_with_url("http://localhost");
    let reply = "{\"data\":{\"login\":{\"success\":true}}}";
    let (user, tok) = c.login_at("Alice@Example.com", reply, login_ok(true), Some(1000), "u1", "u2").unwrap();
    assert_eq!(user.id, "alice_example.com");
    assert_eq!(user.email, "Alice@Example.com");
    assert_eq!(user.subscription.plan, "premium");
    assert_eq!(user.subscription.expires_at, "2099-12-31");
    assert!(user.subscription.is_active);
    assert_eq!(tok.expires_at, 87_400);
    assert_eq!(tok.access_token, "vpnht_u1");
    assert_eq!(tok.refresh_token, "refresh_u2");
    assert_eq!(c.tokens(), Some(tok));
}

#[test]
fn signup_at_opens_the_session_at_the_clock_time() {
    let mut c = ApiClient::new();
    let (user, tok) = c.signup_at("Bob@Mail.org", "{}", signup_ok(true), Some(5_000), "a", "b").unwrap();
    assert_eq!(user.id, "bob_mail.org");
    assert_eq!(tok.expires_at, 91_400);
    assert_eq!(c.tokens(), Some(tok));
}

#[test]
fn unreadable_clock_refuses_the_session() {
    let mut c = ApiClient::new();
    let clock = Err(AppError::Clock("System time is out of range".to_string()));
    assert_eq!(c.login_at("a@b", "{}", login_ok(true), None, "x", "y"), clock);
    assert_eq!(c.signup_at("a@b", "{}", signup_ok(true), Some(CHRONO_MAX as u64 + 1), "x", "y"), clock);
    assert_eq!(c.tokens(), None);
    // a refused reply comes first, whatever the clock
    assert_eq!(
        c.login_at("a@b", "{}", login_ok(false), None, "x", "y"),
        Err(AppError::Auth("Login failed".to_string()))
    );
}
