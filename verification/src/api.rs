//! The VPN.ht API client's own logic: the GraphQL requests it sends, how it
//! reads the replies, and the session it keeps. Sending the requests and
//! parsing the JSON replies into these types is left to the caller.

use vstd::prelude::*;
use crate::text;

verus! {

/// Where the VPN.ht API lives.
pub const VPNHT_API_URL: &'static str = "https://my.vpn.ht";

/// An error of the API client.
#[derive(Debug, PartialEq, Eq)]
pub enum AppError {
    /// The request failed or its reply could not be read.
    Network(String),
    /// The server refused the credentials or the session.
    Auth(String),
    /// The system clock cannot be read as a date.
    Clock(String),
}

/// The mathematical value of an [`AppError`].
pub enum AppErrorView {
    Network(Seq<char>),
    Auth(Seq<char>),
    Clock(Seq<char>),
}

impl View for AppError {
    type V = AppErrorView;

    open spec fn view(&self) -> AppErrorView {
        match self {
            AppError::Network(m) => AppErrorView::Network(m@),
            AppError::Auth(m) => AppErrorView::Auth(m@),
            AppError::Clock(m) => AppErrorView::Clock(m@),
        }
    }
}

/// The view of a result that carries nothing on success.
pub open spec fn unit_result(r: Result<(), AppError>) -> Result<(), AppErrorView> {
    match r {
        Ok(()) => Ok(()),
        Err(e) => Err(e@),
    }
}

/// The tokens of a signed-in session.
#[derive(Debug, PartialEq, Eq)]
pub struct AuthTokens {
    pub access_token: String,
    pub refresh_token: String,
    /// Unix time, in seconds, at which the session ends.
    pub expires_at: i64,
}

/// The mathematical value of [`AuthTokens`].
pub struct TokensView {
    pub access_token: Seq<char>,
    pub refresh_token: Seq<char>,
    pub expires_at: i64,
}

impl View for AuthTokens {
    type V = TokensView;

    open spec fn view(&self) -> TokensView {
        TokensView {
            access_token: self.access_token@,
            refresh_token: self.refresh_token@,
            expires_at: self.expires_at,
        }
    }
}

impl Clone for AuthTokens {
    fn clone(&self) -> (r: Self)
        ensures
            r@ == self@,
    {
        AuthTokens {
            access_token: self.access_token.clone(),
            refresh_token: self.refresh_token.clone(),
            expires_at: self.expires_at,
        }
    }
}

/// The subscription of a VPN.ht user.
#[derive(Debug, PartialEq, Eq)]
pub struct ApiSubscription {
    pub plan: String,
    pub expires_at: String,
    pub is_active: bool,
}

/// A VPN.ht user.
#[derive(Debug, PartialEq, Eq)]
pub struct ApiUser {
    pub id: String,
    pub email: String,
    pub subscription: ApiSubscription,
}

/// The mathematical value of an [`ApiUser`].
pub struct UserView {
    pub id: Seq<char>,
    pub email: Seq<char>,
    pub plan: Seq<char>,
    pub plan_expires_at: Seq<char>,
    pub is_active: bool,
}

impl View for ApiUser {
    type V = UserView;

    open spec fn view(&self) -> UserView {
        UserView {
            id: self.id@,
            email: self.email@,
            plan: self.subscription.plan@,
            plan_expires_at: self.subscription.expires_at@,
            is_active: self.subscription.is_active,
        }
    }
}

/// Where the current public IP address is, as ipinfo.io reports it.
#[derive(Debug, PartialEq, Eq)]
pub struct IpInfoResponse {
    pub ip: String,
    pub city: String,
    pub region: String,
    pub country: String,
    pub org: String,
}

// ---------------------------------------------------------------------------
// GraphQL replies
// ---------------------------------------------------------------------------

/// One error of a GraphQL reply.
pub struct GraphQLError {
    pub message: String,
    pub code: Option<String>,
}

/// A GraphQL reply: its data, its errors, or both.
pub struct GraphQLResponse<T> {
    pub data: Option<T>,
    pub errors: Option<Vec<GraphQLError>>,
}

/// The data of a reply to the login mutation.
pub struct LoginResponse {
    pub login: LoginResult,
}

/// Whether the login succeeded.
pub struct LoginResult {
    pub success: bool,
}

/// The data of a reply to the signup mutation.
pub struct SignupResponse {
    pub signup: SignupResult,
}

/// Whether the signup succeeded.
pub struct SignupResult {
    pub success: bool,
}

/// The messages of a list of GraphQL errors.
pub open spec fn messages(es: Seq<GraphQLError>) -> Seq<Seq<char>> {
    es.map_values(|e: GraphQLError| e.message@)
}

/// The messages of `errors`, separated by `, `.
pub fn error_messages(errors: &Vec<GraphQLError>) -> (r: String)
    ensures
        r@ == text::join(messages(errors@), ", "@),
{
    let mut list: Vec<String> = Vec::new();
    let mut i: usize = 0;
    while i < errors.len()
        invariant
            i <= errors.len(),
            text::views(list@) == messages(errors@).take(i as int),
        decreases errors.len() - i,
    {
        let ghost before = list@;
        list.push(errors[i].message.clone());
        assert(text::views(list@) =~= text::views(before).push(errors@[i as int].message@));
        i = i + 1;
        assert(text::views(list@) =~= messages(errors@).take(i as int));
    }
    assert(messages(errors@).take(i as int) =~= messages(errors@));
    text::joined(&list, ", ")
}

/// What `extract_data` makes of a reply: an error listing the reply's
/// errors if it has any, else its data, else an error for the empty reply.
pub open spec fn extracted<T>(response: GraphQLResponse<T>) -> Result<T, AppErrorView> {
    match response.errors {
        Some(es) => Err(AppErrorView::Network(text::join(messages(es@), ", "@))),
        None => match response.data {
            Some(d) => Ok(d),
            None => Err(AppErrorView::Network("Empty API response"@)),
        },
    }
}

/// The view of a result that carries data on success.
pub open spec fn data_result<T>(r: Result<T, AppError>) -> Result<T, AppErrorView> {
    match r {
        Ok(d) => Ok(d),
        Err(e) => Err(e@),
    }
}

// ---------------------------------------------------------------------------
// Requests
// ---------------------------------------------------------------------------

/// `s` with each double quote escaped by a backslash.
pub open spec fn quote_escaped(s: Seq<char>) -> Seq<char> {
    text::replace_char(s, '"', "\\\""@)
}

/// The GraphQL mutation named `name` with the given email and password.
pub open spec fn credentials_mutation(name: Seq<char>, email: Seq<char>, password: Seq<char>) -> Seq<char> {
    "mutation { "@ + name + "(email: \""@ + quote_escaped(email) + "\", password: \""@
        + quote_escaped(password) + "\") { success } }"@
}

/// The GraphQL mutation `name` for the given credentials.
fn credentials_query(name: &str, email: &str, password: &str) -> (r: String)
    ensures
        r@ == credentials_mutation(name@, email@, password@),
{
    let e = text::replaced(email, '"', "\\\"");
    let p = text::replaced(password, '"', "\\\"");
    let mut q = String::new();
    text::push_all(&mut q, "mutation { ");
    text::push_all(&mut q, name);
    text::push_all(&mut q, "(email: \"");
    text::push_all(&mut q, e.as_str());
    text::push_all(&mut q, "\", password: \"");
    text::push_all(&mut q, p.as_str());
    text::push_all(&mut q, "\") { success } }");
    assert(q@ =~= credentials_mutation(name@, email@, password@));
    q
}

/// The GraphQL query that logs in with `email` and `password`.
pub fn login_query(email: &str, password: &str) -> (r: String)
    ensures
        r@ == credentials_mutation("login"@, email@, password@),
{
    credentials_query("login", email, password)
}

/// The GraphQL query that signs up with `email` and `password`.
pub fn signup_query(email: &str, password: &str) -> (r: String)
    ensures
        r@ == credentials_mutation("signup"@, email@, password@),
{
    credentials_query("signup", email, password)
}

/// The GraphQL query for the server list.
pub const SERVERS_QUERY: &'static str = r#"
            query GetServers {
                servers {
                    id name country countryCode city lat lng
                    hostname ip port publicKey
                    supportedProtocols features load isPremium
                }
            }
        "#;

// ---------------------------------------------------------------------------
// Reading the replies
// ---------------------------------------------------------------------------

/// The data of a reply to the server list query.
pub struct ServersData<S> {
    pub servers: Vec<S>,
}

/// The servers that a reply to the server list query gives: those of its
/// data when the request went through and the reply parsed with data;
/// none otherwise, so that the caller falls back to its own list.
pub open spec fn servers_listed<S>(reply: Option<Result<GraphQLResponse<ServersData<S>>, String>>) -> Seq<S> {
    match reply {
        Some(Ok(g)) => match g.data {
            Some(d) => d.servers@,
            None => Seq::empty(),
        },
        _ => Seq::empty(),
    }
}

/// The number of bytes of a reply that a parse error quotes: the first 200,
/// or all if there are fewer.
pub open spec fn quoted_len(reply: Seq<char>) -> int {
    let n = vstd::utf8::encode_utf8(reply).len() as int;
    if n < 200 {
        n
    } else {
        200
    }
}

/// The text of the first `quoted_len` bytes of `reply`.
pub open spec fn quoted_start(reply: Seq<char>) -> Seq<char> {
    vstd::utf8::decode_utf8(vstd::utf8::encode_utf8(reply).subrange(0, quoted_len(reply)))
}

/// The quoted part of `reply` falls on a character boundary, so that it can
/// be cut there.
pub open spec fn quotable(reply: Seq<char>) -> bool {
    vstd::utf8::is_char_boundary(vstd::utf8::encode_utf8(reply), quoted_len(reply))
}

/// The first 200 bytes of `reply` (all of it if it is shorter).
pub fn reply_start(reply: &str) -> (r: String)
    requires
        quotable(reply@),
    ensures
        r@ == quoted_start(reply@),
{
    let n = reply.as_bytes().len();
    let cut = if n < 200 { n } else { 200 };
    let (head, _) = reply.split_at(cut);
    proof {
        vstd::utf8::encode_utf8_decode_utf8(head@);
    }
    head.to_owned()
}

/// The reply text names the credentials as wrong.
pub open spec fn rejects_credentials(reply: Seq<char>) -> bool {
    text::contains(reply, "INVALID_CREDENTIALS"@) || text::contains(reply, "Email or Password Invalid"@)
}

/// Whether the reply text names the credentials as wrong.
pub fn credentials_rejected(reply: &str) -> (r: bool)
    ensures
        r == rejects_credentials(reply@),
{
    text::has_substring(reply, "INVALID_CREDENTIALS") || text::has_substring(reply, "Email or Password Invalid")
}

/// What the client makes of the reply to a login: wrong credentials if the
/// text says so; else a network error quoting the parse error and the start
/// of the text if it did not parse; else the GraphQL errors if there are
/// any; else an error for an empty reply; else whether the login succeeded.
pub open spec fn login_verdict(reply: Seq<char>, parsed: Result<GraphQLResponse<LoginResponse>, String>) -> Result<(), AppErrorView> {
    if rejects_credentials(reply) {
        Err(AppErrorView::Auth("Invalid email or password"@))
    } else {
        match parsed {
            Err(e) => Err(AppErrorView::Network(
                "Failed to parse response: "@ + e@ + " (raw: "@ + quoted_start(reply) + ")"@,
            )),
            Ok(g) => match g.errors {
                Some(es) => Err(AppErrorView::Auth("Login failed: "@ + text::join(messages(es@), ", "@))),
                None => match g.data {
                    None => Err(AppErrorView::Network("Empty API response"@)),
                    Some(d) => if d.login.success {
                        Ok(())
                    } else {
                        Err(AppErrorView::Auth("Login failed"@))
                    },
                },
            },
        }
    }
}

/// The text says the email is taken.
pub open spec fn reports_taken_email(reply: Seq<char>) -> bool {
    text::contains(reply, "EMAIL_EXISTS"@) || text::contains(reply, "already exists"@)
}

/// What the client makes of the reply to a signup: a taken email if the
/// text says so; else a network error with the parse error if it did not
/// parse; else the GraphQL errors if there are any; else an error for an
/// empty reply; else whether the signup succeeded.
pub open spec fn signup_verdict(reply: Seq<char>, parsed: Result<GraphQLResponse<SignupResponse>, String>) -> Result<(), AppErrorView> {
    if reports_taken_email(reply) {
        Err(AppErrorView::Auth("Email already registered"@))
    } else {
        match parsed {
            Err(e) => Err(AppErrorView::Network("Failed to parse response: "@ + e@)),
            Ok(g) => match g.errors {
                Some(es) => Err(AppErrorView::Auth("Signup failed: "@ + text::join(messages(es@), ", "@))),
                None => match g.data {
                    None => Err(AppErrorView::Network("Empty API response"@)),
                    Some(d) => if d.signup.success {
                        Ok(())
                    } else {
                        Err(AppErrorView::Auth("Signup failed"@))
                    },
                },
            },
        }
    }
}

// ---------------------------------------------------------------------------
// Sessions
// ---------------------------------------------------------------------------

/// How long a session lasts, in seconds: a day.
pub const SESSION_SECONDS: i64 = 86400;

/// `s` in lowercase: ASCII letters map to their lowercase letters one for
/// one; text with other characters goes through Unicode case mapping.
pub open spec fn lowered(s: Seq<char>) -> Seq<char> {
    if text::all_ascii(s) {
        s.map_values(|c: char| text::ascii_lower_char(c))
    } else {
        text::unicode_lowercase(s)
    }
}

/// The user that a signed-in email stands for: the lowercased email with
/// `@` replaced by `_` as id, on the premium plan until 2099-12-31.
pub open spec fn session_user(email: Seq<char>) -> UserView {
    UserView {
        id: text::replace_char(lowered(email), '@', "_"@),
        email,
        plan: "premium"@,
        plan_expires_at: "2099-12-31"@,
        is_active: true,
    }
}

/// The tokens of a session opened at Unix time `now` with the random ids
/// `access_id` and `refresh_id`.
pub open spec fn session_tokens(now: i64, access_id: Seq<char>, refresh_id: Seq<char>) -> TokensView {
    TokensView {
        access_token: "vpnht_"@ + access_id,
        refresh_token: "refresh_"@ + refresh_id,
        expires_at: (now + SESSION_SECONDS) as i64,
    }
}

/// The user and tokens of a session opened at `now` for `email`.
pub fn new_session(email: &str, now: i64, access_id: &str, refresh_id: &str) -> (r: (ApiUser, AuthTokens))
    requires
        now <= i64::MAX - SESSION_SECONDS,
    ensures
        r.0@ == session_user(email@),
        r.1@ == session_tokens(now, access_id@, refresh_id@),
{
    let tokens = AuthTokens {
        access_token: text::appended("vpnht_", access_id),
        refresh_token: text::appended("refresh_", refresh_id),
        expires_at: now + SESSION_SECONDS,
    };
    let lower = text::to_lowercase(email);
    let user = ApiUser {
        id: text::replaced(lower.as_str(), '@', "_"),
        email: email.to_owned(),
        subscription: ApiSubscription {
            plan: "premium".to_owned(),
            expires_at: "2099-12-31".to_owned(),
            is_active: true,
        },
    };
    (user, tokens)
}

/// The first Unix second that `chrono` can represent: January 1 of the
/// year -262143, 00:00:00 UTC.
pub const CHRONO_MIN: i64 = -8_334_601_228_800;

/// The last Unix second that `chrono` can represent: December 31 of the
/// year 262142, 23:59:59 UTC.
pub const CHRONO_MAX: i64 = 8_210_266_876_799;

/// Calls `SystemTime::elapsed` (std) on `UNIX_EPOCH` and takes the whole
/// seconds: the system clock as Unix time, or `None` when it reads before
/// 1970. The reading is the machine's; nothing is stated of it.
#[verifier::external_body]
fn system_seconds() -> (r: Option<u64>) {
    std::time::UNIX_EPOCH.elapsed().ok().map(|d| d.as_secs())
}

/// Calls `chrono::DateTime::<Utc>::from_timestamp` with `secs` and no
/// nanoseconds, and takes the date's `timestamp`: `secs` back when it falls
/// within `chrono`'s dates (the years -262143 to 262142), `None` otherwise.
/// The two calls round-trip, as `chrono` documents.
#[verifier::external_body]
fn chrono_timestamp(secs: i64) -> (r: Option<i64>)
    ensures
        r == if CHRONO_MIN <= secs <= CHRONO_MAX {
            Some(secs)
        } else {
            None::<i64>
        },
{
    chrono::DateTime::<chrono::Utc>::from_timestamp(secs, 0).map(|d| d.timestamp())
}

/// The Unix time that a clock reading (whole seconds since 1970, `None`
/// for a clock before 1970) stands for, as `chrono::Utc::now` takes it:
/// the seconds as `i64`, if that falls within `chrono`'s dates.
pub open spec fn clock_time(reading: Option<u64>) -> Option<i64> {
    match reading {
        None => None,
        Some(s) => {
            let t = s as i64;
            if CHRONO_MIN <= t <= CHRONO_MAX {
                Some(t)
            } else {
                None
            }
        },
    }
}

/// The Unix time that a clock reading stands for.
pub fn clock_time_of(reading: Option<u64>) -> (r: Option<i64>)
    ensures
        r == clock_time(reading),
{
    match reading {
        None => None,
        Some(s) => {
            // `Utc::now` takes the seconds `as i64` too.
            let secs: i64 = #[verifier::truncate] (s as i64);
            chrono_timestamp(secs)
        },
    }
}

/// The message when the system clock cannot be read as a date.
pub open spec fn clock_failure() -> Seq<char> {
    "System time is out of range"@
}

// ---------------------------------------------------------------------------
// The client
// ---------------------------------------------------------------------------

/// The state of a VPN.ht API client: the API's address and the tokens of
/// the signed-in session, if any.
pub struct ApiClient {
    base_url: String,
    tokens: Option<AuthTokens>,
}

/// The mathematical value of an [`ApiClient`].
pub struct ClientView {
    pub base_url: Seq<char>,
    pub tokens: Option<TokensView>,
}

/// The view of optional tokens.
pub open spec fn opt_tokens(t: Option<AuthTokens>) -> Option<TokensView> {
    match t {
        Some(t) => Some(t@),
        None => None,
    }
}

impl View for ApiClient {
    type V = ClientView;

    closed spec fn view(&self) -> ClientView {
        ClientView { base_url: self.base_url@, tokens: opt_tokens(self.tokens) }
    }
}

/// The view of the result of a sign-in.
pub open spec fn session_result(r: Result<(ApiUser, AuthTokens), AppError>) -> Result<(UserView, TokensView), AppErrorView> {
    match r {
        Ok((u, t)) => Ok((u@, t@)),
        Err(e) => Err(e@),
    }
}

/// A sign-in of `email` whose reply the client judged as `verdict`, at the
/// time `now` (`None` when the clock gives none), with the random ids
/// `access_id` and `refresh_id`: the client afterwards and the result.
/// A refused reply gives its error; an accepted one gives the clock error
/// without a time, else the user for `email` and the tokens of a session
/// opened at `now`, which the client keeps. On any error the client stays
/// as it was.
pub open spec fn sign_in(
    before: ClientView,
    email: Seq<char>,
    access_id: Seq<char>,
    refresh_id: Seq<char>,
    verdict: Result<(), AppErrorView>,
    now: Option<i64>,
) -> (ClientView, Result<(UserView, TokensView), AppErrorView>) {
    match verdict {
        Err(e) => (before, Err(e)),
        Ok(()) => match now {
            None => (before, Err(AppErrorView::Clock(clock_failure()))),
            Some(t) => {
                let tokens = session_tokens(t, access_id, refresh_id);
                (ClientView { tokens: Some(tokens), ..before }, Ok((session_user(email), tokens)))
            },
        },
    }
}

impl ApiClient {
    /// A client of the VPN.ht API, signed out.
    pub fn new() -> (r: Self)
        ensures
            r@ == (ClientView { base_url: VPNHT_API_URL@, tokens: None }),
    {
        ApiClient { base_url: VPNHT_API_URL.to_owned(), tokens: None }
    }

    /// A client of the API at `base_url`, signed out.
    pub fn new_with_url(base_url: &str) -> (r: Self)
        ensures
            r@ == (ClientView { base_url: base_url@, tokens: None }),
    {
        ApiClient { base_url: base_url.to_owned(), tokens: None }
    }

    /// The address of the API.
    pub fn base_url(&self) -> (r: &str)
        ensures
            r@ == self@.base_url,
    {
        self.base_url.as_str()
    }

    /// The address that GraphQL requests go to.
    pub fn graphql_url(&self) -> (r: String)
        ensures
            r@ == self@.base_url + "/graphql"@,
    {
        text::appended(self.base_url.as_str(), "/graphql")
    }

    /// The tokens of the signed-in session, if any.
    pub fn tokens(&self) -> (r: Option<AuthTokens>)
        ensures
            opt_tokens(r) == self@.tokens,
    {
        match &self.tokens {
            Some(t) => Some(t.clone()),
            None => None,
        }
    }

    /// Keeps `tokens` as the session's.
    pub fn set_tokens(&mut self, tokens: AuthTokens)
        ensures
            final(self)@ == (ClientView { tokens: Some(tokens@), ..old(self)@ }),
    {
        self.tokens = Some(tokens);
    }

    /// Forgets the session's tokens.
    pub fn clear_tokens(&mut self)
        ensures
            final(self)@ == (ClientView { tokens: None, ..old(self)@ }),
    {
        self.tokens = None;
    }

    /// The data of `response`, or an error for its GraphQL errors or for an
    /// empty reply.
    pub fn extract_data<T>(&self, response: GraphQLResponse<T>) -> (r: Result<T, AppError>)
        ensures
            data_result(r) == extracted(response),
    {
        if let Some(errors) = &response.errors {
            let msg = error_messages(errors);
            return Err(AppError::Network(msg));
        }
        match response.data {
            Some(d) => Ok(d),
            None => Err(AppError::Network("Empty API response".to_owned())),
        }
    }

    /// Judges the reply to a login: `reply` is its text, `parsed` the result
    /// of parsing that text as a GraphQL reply (the parse error's message
    /// on failure).
    pub fn login_reply(&self, reply: &str, parsed: Result<GraphQLResponse<LoginResponse>, String>) -> (r: Result<(), AppError>)
        requires
            !rejects_credentials(reply@) && parsed is Err ==> quotable(reply@),
        ensures
            unit_result(r) == login_verdict(reply@, parsed),
    {
        if credentials_rejected(reply) {
            return Err(AppError::Auth("Invalid email or password".to_owned()));
        }
        let response = match parsed {
            Err(e) => {
                let head = text::appended("Failed to parse response: ", e.as_str());
                let quoted = reply_start(reply);
                let with_raw = text::appended(head.as_str(), " (raw: ");
                let with_text = text::appended(with_raw.as_str(), quoted.as_str());
                let msg = text::appended(with_text.as_str(), ")");
                return Err(AppError::Network(msg));
            },
            Ok(g) => g,
        };
        if let Some(errors) = &response.errors {
            let joined = error_messages(errors);
            return Err(AppError::Auth(text::appended("Login failed: ", joined.as_str())));
        }
        let data = match self.extract_data(response) {
            Ok(d) => d,
            Err(e) => return Err(e),
        };
        if !data.login.success {
            return Err(AppError::Auth("Login failed".to_owned()));
        }
        Ok(())
    }

    /// Judges the reply to a signup: `reply` is its text, `parsed` the
    /// result of parsing that text as a GraphQL reply.
    pub fn signup_reply(&self, reply: &str, parsed: Result<GraphQLResponse<SignupResponse>, String>) -> (r: Result<(), AppError>)
        ensures
            unit_result(r) == signup_verdict(reply@, parsed),
    {
        if text::has_substring(reply, "EMAIL_EXISTS") || text::has_substring(reply, "already exists") {
            return Err(AppError::Auth("Email already registered".to_owned()));
        }
        let response = match parsed {
            Err(e) => {
                return Err(AppError::Network(text::appended("Failed to parse response: ", e.as_str())));
            },
            Ok(g) => g,
        };
        if let Some(errors) = &response.errors {
            let joined = error_messages(errors);
            return Err(AppError::Auth(text::appended("Signup failed: ", joined.as_str())));
        }
        let data = match self.extract_data(response) {
            Ok(d) => d,
            Err(e) => return Err(e),
        };
        if !data.signup.success {
            return Err(AppError::Auth("Signup failed".to_owned()));
        }
        Ok(())
    }

    /// Opens a session for `email` at the time that `reading` stands for,
    /// keeps its tokens, and returns the user and tokens.
    fn open_session(&mut self, email: &str, reading: Option<u64>, access_id: &str, refresh_id: &str) -> (r: Result<(ApiUser, AuthTokens), AppError>)
        ensures
            (final(self)@, session_result(r)) == sign_in(
                old(self)@,
                email@,
                access_id@,
                refresh_id@,
                Ok(()),
                clock_time(reading),
            ),
    {
        match clock_time_of(reading) {
            None => Err(AppError::Clock("System time is out of range".to_owned())),
            Some(now) => {
                let (user, tokens) = new_session(email, now, access_id, refresh_id);
                self.set_tokens(tokens.clone());
                Ok((user, tokens))
            },
        }
    }

    /// Signs in `email` on the reply to the login mutation, with the clock
    /// reading `reading` and the random ids `access_id` and `refresh_id`:
    /// if the reply accepts the login and the reading stands for a time,
    /// opens a session then, keeps its tokens, and returns the user and
    /// tokens.
    pub fn login_at(
        &mut self,
        email: &str,
        reply: &str,
        parsed: Result<GraphQLResponse<LoginResponse>, String>,
        reading: Option<u64>,
        access_id: &str,
        refresh_id: &str,
    ) -> (r: Result<(ApiUser, AuthTokens), AppError>)
        requires
            !rejects_credentials(reply@) && parsed is Err ==> quotable(reply@),
        ensures
            (final(self)@, session_result(r)) == sign_in(
                old(self)@,
                email@,
                access_id@,
                refresh_id@,
                login_verdict(reply@, parsed),
                clock_time(reading),
            ),
    {
        if let Err(e) = self.login_reply(reply, parsed) {
            return Err(e);
        }
        self.open_session(email, reading, access_id, refresh_id)
    }

    /// Signs in `email` on the reply to the login mutation, reading the
    /// system clock: as [`ApiClient::login_at`] with what the clock read.
    pub fn login(
        &mut self,
        email: &str,
        reply: &str,
        parsed: Result<GraphQLResponse<LoginResponse>, String>,
        access_id: &str,
        refresh_id: &str,
    ) -> (r: Result<(ApiUser, AuthTokens), AppError>)
        requires
            !rejects_credentials(reply@) && parsed is Err ==> quotable(reply@),
        ensures
            exists|reading: Option<u64>|
                (final(self)@, session_result(r)) == #[trigger] sign_in(
                    old(self)@,
                    email@,
                    access_id@,
                    refresh_id@,
                    login_verdict(reply@, parsed),
                    clock_time(reading),
                ),
    {
        let reading = system_seconds();
        self.login_at(email, reply, parsed, reading, access_id, refresh_id)
    }

    /// Signs up `email` on the reply to the signup mutation, with the clock
    /// reading `reading` and the random ids: as [`ApiClient::login_at`] for
    /// the signup's reply.
    pub fn signup_at(
        &mut self,
        email: &str,
        reply: &str,
        parsed: Result<GraphQLResponse<SignupResponse>, String>,
        reading: Option<u64>,
        access_id: &str,
        refresh_id: &str,
    ) -> (r: Result<(ApiUser, AuthTokens), AppError>)
        ensures
            (final(self)@, session_result(r)) == sign_in(
                old(self)@,
                email@,
                access_id@,
                refresh_id@,
                signup_verdict(reply@, parsed),
                clock_time(reading),
            ),
    {
        if let Err(e) = self.signup_reply(reply, parsed) {
            return Err(e);
        }
        self.open_session(email, reading, access_id, refresh_id)
    }

    /// Signs up `email` on the reply to the signup mutation, reading the
    /// system clock: as [`ApiClient::signup_at`] with what the clock read.
    pub fn signup(
        &mut self,
        email: &str,
        reply: &str,
        parsed: Result<GraphQLResponse<SignupResponse>, String>,
        access_id: &str,
        refresh_id: &str,
    ) -> (r: Result<(ApiUser, AuthTokens), AppError>)
        ensures
            exists|reading: Option<u64>|
                (final(self)@, session_result(r)) == #[trigger] sign_in(
                    old(self)@,
                    email@,
                    access_id@,
                    refresh_id@,
                    signup_verdict(reply@, parsed),
                    clock_time(reading),
                ),
    {
        let reading = system_seconds();
        self.signup_at(email, reply, parsed, reading, access_id, refresh_id)
    }

    /// The servers that a reply to the server list query gives. `reply` is
    /// `None` when the request or the reading of its text failed, else the
    /// result of parsing the text (the parse error's message on failure).
    pub fn servers_from_reply<S>(&self, reply: Option<Result<GraphQLResponse<ServersData<S>>, String>>) -> (r: Vec<S>)
        ensures
            r@ == servers_listed(reply),
    {
        if let Some(Ok(g)) = reply {
            if let Some(data) = g.data {
                return data.servers;
            }
        }
        Vec::new()
    }

    /// Ends the session: the API has no refresh endpoint, so the tokens are
    /// forgotten and the caller is told to sign in again.
    pub fn refresh_token(&mut self) -> (r: Result<(), AppError>)
        ensures
            final(self)@ == (ClientView { tokens: None, ..old(self)@ }),
            unit_result(r) == Err::<(), AppErrorView>(
                AppErrorView::Auth("Session expired. Please log in again."@),
            ),
    {
        self.clear_tokens();
        Err(AppError::Auth("Session expired. Please log in again.".to_owned()))
    }
}

} // verus!
