//! What holds of every request and session of the API client.

use vstd::prelude::*;
use crate::api;
use crate::text;

verus! {

/// The id of a signed-in user never holds `@`: every `@` of the lowercased
/// email becomes `_`.
pub proof fn law_user_id_has_no_at(email: Seq<char>)
    ensures
        !api::session_user(email).id.contains('@'),
{
    reveal_strlit("_");
    assert(!"_"@.contains('@')) by {
        assert("_"@ =~= seq!['_']);
    }
    text::lemma_replace_char_removes(api::lowered(email), '@', "_"@);
}

/// A session's tokens carry the `vpnht_` and `refresh_` prefixes and end a
/// day after the session was opened.
pub proof fn law_session_lasts_a_day(now: i64, access_id: Seq<char>, refresh_id: Seq<char>)
    requires
        now <= i64::MAX - api::SESSION_SECONDS,
    ensures
        ({
            let t = api::session_tokens(now, access_id, refresh_id);
            &&& t.expires_at == now + 86400
            &&& t.access_token.take(6) == "vpnht_"@
            &&& t.refresh_token.take(8) == "refresh_"@
        }),
{
    reveal_strlit("vpnht_");
    reveal_strlit("refresh_");
    let t = api::session_tokens(now, access_id, refresh_id);
    assert(t.access_token.take(6) =~= "vpnht_"@);
    assert(t.refresh_token.take(8) =~= "refresh_"@);
}

/// How a GraphQL parser reads the inside of a string literal up to its
/// closing quote: the characters it stands for and what follows the quote;
/// `None` when the literal does not close, breaks a line, or uses an escape
/// other than `\"` and `\\`.
pub open spec fn graphql_string_read(s: Seq<char>) -> Option<(Seq<char>, Seq<char>)>
    decreases s.len(),
{
    if s.len() == 0 {
        None
    } else if s[0] == '"' {
        Some((Seq::empty(), s.drop_first()))
    } else if s[0] == '\n' || s[0] == '\r' {
        None
    } else if s[0] == '\\' {
        if s.len() >= 2 && (s[1] == '"' || s[1] == '\\') {
            match graphql_string_read(s.subrange(2, s.len() as int)) {
                Some((v, rest)) => Some((seq![s[1]] + v, rest)),
                None => None,
            }
        } else {
            None
        }
    } else {
        match graphql_string_read(s.drop_first()) {
            Some((v, rest)) => Some((seq![s[0]] + v, rest)),
            None => None,
        }
    }
}

/// Text that the query's quoting keeps inside its string literal.
pub open spec fn quotable_credential(s: Seq<char>) -> bool {
    !s.contains('\\') && !s.contains('\n') && !s.contains('\r')
}

/// An email or password without backslashes or line breaks, escaped as the
/// login and signup queries escape it, reads back as itself, and the
/// literal ends where the query closes it: such credentials cannot change
/// the query. (A backslash is not escaped, so `\"` in a credential would
/// end the literal early.)
pub proof fn law_credentials_stay_quoted(s: Seq<char>, rest: Seq<char>)
    requires
        quotable_credential(s),
    ensures
        graphql_string_read(api::quote_escaped(s) + seq!['"'] + rest) == Some((s, rest)),
    decreases s.len(),
{
    reveal_strlit("\\\"");
    let esc = "\\\""@;
    assert(esc =~= seq!['\\', '"']);
    if s.len() == 0 {
        assert(api::quote_escaped(s) + seq!['"'] + rest =~= seq!['"'] + rest);
        assert((seq!['"'] + rest).drop_first() =~= rest);
    } else {
        let c = s[0];
        let tail_s = s.drop_first();
        assert(s =~= seq![c] + tail_s);
        assert(quotable_credential(tail_s)) by {
            assert forall|x: char| tail_s.contains(x) implies s.contains(x) by {
                let k = choose|k: int| 0 <= k < tail_s.len() && tail_s[k] == x;
                assert(s[k + 1] == x);
            }
        }
        assert(s[0] == c);
        text::lemma_replace_char_concat(seq![c], tail_s, '"', esc);
        text::lemma_replace_char_single(c, '"', esc);
        law_credentials_stay_quoted(tail_s, rest);
        let tail = api::quote_escaped(tail_s) + seq!['"'] + rest;
        if c == '"' {
            let x = esc + tail;
            assert(api::quote_escaped(s) + seq!['"'] + rest =~= x);
            assert(x.subrange(2, x.len() as int) =~= tail);
            assert(seq!['"'] + tail_s =~= s);
        } else {
            let x = seq![c] + tail;
            assert(api::quote_escaped(s) + seq!['"'] + rest =~= x);
            assert(x.drop_first() =~= tail);
            assert(c != '\\' && c != '\n' && c != '\r');
            assert(seq![c] + tail_s =~= s);
        }
    }
}

/// A login is accepted only when its reply parsed, carries no GraphQL
/// errors, has data, and that data says the login succeeded, and the text
/// does not name the credentials as wrong.
pub proof fn law_login_accepted_only_on_success(
    reply: Seq<char>,
    parsed: Result<api::GraphQLResponse<api::LoginResponse>, String>,
)
    ensures
        api::login_verdict(reply, parsed) is Ok ==> {
            &&& !api::rejects_credentials(reply)
            &&& parsed matches Ok(g)
            &&& g.errors is None
            &&& g.data matches Some(d)
            &&& d.login.success
        },
{
}

/// A parsed login reply without errors whose data says the login failed is
/// refused with `Login failed`, whatever else the reply text holds (unless
/// it names the credentials as wrong); one whose data says it succeeded is
/// accepted.
pub proof fn law_login_follows_reported_success(
    reply: Seq<char>,
    g: api::GraphQLResponse<api::LoginResponse>,
    d: api::LoginResponse,
)
    requires
        !api::rejects_credentials(reply),
        g.errors is None,
        g.data == Some(d),
    ensures
        d.login.success ==> api::login_verdict(reply, Ok(g)) is Ok,
        !d.login.success ==> api::login_verdict(reply, Ok(g)) == Err::<(), api::AppErrorView>(
            api::AppErrorView::Auth("Login failed"@),
        ),
{
}

/// A signup is accepted only when its reply parsed, carries no GraphQL
/// errors, has data, and that data says the signup succeeded, and the text
/// does not report the email as taken.
pub proof fn law_signup_accepted_only_on_success(
    reply: Seq<char>,
    parsed: Result<api::GraphQLResponse<api::SignupResponse>, String>,
)
    ensures
        api::signup_verdict(reply, parsed) is Ok ==> {
            &&& !api::reports_taken_email(reply)
            &&& parsed matches Ok(g)
            &&& g.errors is None
            &&& g.data matches Some(d)
            &&& d.signup.success
        },
{
}

/// A parsed signup reply without errors whose data says the signup failed
/// is refused with `Signup failed`, whatever else the reply text holds
/// (unless it reports a taken email); one whose data says it succeeded is
/// accepted.
pub proof fn law_signup_follows_reported_success(
    reply: Seq<char>,
    g: api::GraphQLResponse<api::SignupResponse>,
    d: api::SignupResponse,
)
    requires
        !api::reports_taken_email(reply),
        g.errors is None,
        g.data == Some(d),
    ensures
        d.signup.success ==> api::signup_verdict(reply, Ok(g)) is Ok,
        !d.signup.success ==> api::signup_verdict(reply, Ok(g)) == Err::<(), api::AppErrorView>(
            api::AppErrorView::Auth("Signup failed"@),
        ),
{
}

/// A sign-in opens a session only on an accepted reply and a readable
/// clock; otherwise it changes nothing. When it opens one, the client keeps
/// exactly the tokens it returns.
pub proof fn law_session_needs_accepted_reply(
    before: api::ClientView,
    email: Seq<char>,
    access_id: Seq<char>,
    refresh_id: Seq<char>,
    verdict: Result<(), api::AppErrorView>,
    now: Option<i64>,
)
    ensures
        ({
            let (after, r) = api::sign_in(before, email, access_id, refresh_id, verdict, now);
            &&& r is Ok ==> verdict is Ok && now is Some && after.tokens == Some(r->Ok_0.1)
            &&& r is Err ==> after == before
            &&& verdict matches Err(e) ==> r == Err::<(api::UserView, api::TokensView), api::AppErrorView>(e)
        }),
{
}

/// The server list of a parsed reply with data is exactly that data's
/// servers, whatever errors the reply also carries.
pub proof fn law_servers_follow_data<S>(
    reply: Option<Result<api::GraphQLResponse<api::ServersData<S>>, String>>,
    g: api::GraphQLResponse<api::ServersData<S>>,
    d: api::ServersData<S>,
)
    requires
        reply == Some(Ok::<api::GraphQLResponse<api::ServersData<S>>, String>(g)),
        g.data == Some(d),
    ensures
        api::servers_listed(reply) == d.servers@,
{
}

/// A reply that did not parse, or parsed without data, lists no servers.
pub proof fn law_no_data_no_servers<S>(reply: Option<Result<api::GraphQLResponse<api::ServersData<S>>, String>>)
    requires
        !(reply matches Some(Ok(g)) && g.data is Some),
    ensures
        api::servers_listed(reply).len() == 0,
{
}

/// How a login is refused: a reply naming the credentials as wrong
/// (`INVALID_CREDENTIALS` or `Email or Password Invalid`) is refused as
/// such whatever it parsed to; otherwise GraphQL errors refuse it with
/// their messages, and a parsed reply without data is an empty response.
pub proof fn law_login_refusals(
    reply: Seq<char>,
    parsed: Result<api::GraphQLResponse<api::LoginResponse>, String>,
)
    ensures
        text::contains(reply, "INVALID_CREDENTIALS"@) || text::contains(reply, "Email or Password Invalid"@)
            ==> api::login_verdict(reply, parsed) == Err::<(), api::AppErrorView>(
            api::AppErrorView::Auth("Invalid email or password"@),
        ),
        !api::rejects_credentials(reply) && parsed is Ok && parsed->Ok_0.errors is Some ==>
            api::login_verdict(reply, parsed) == Err::<(), api::AppErrorView>(api::AppErrorView::Auth(
                "Login failed: "@ + text::join(api::messages(parsed->Ok_0.errors->Some_0@), ", "@),
            )),
        !api::rejects_credentials(reply) && parsed is Ok && parsed->Ok_0.errors is None
            && parsed->Ok_0.data is None ==> api::login_verdict(reply, parsed) == Err::<
            (),
            api::AppErrorView,
        >(api::AppErrorView::Network("Empty API response"@)),
{
}

/// How a signup is refused: a reply reporting the email as taken
/// (`EMAIL_EXISTS` or `already exists`) is refused as such whatever it
/// parsed to; otherwise GraphQL errors refuse it with their messages, and
/// a parsed reply without data is an empty response.
pub proof fn law_signup_refusals(
    reply: Seq<char>,
    parsed: Result<api::GraphQLResponse<api::SignupResponse>, String>,
)
    ensures
        text::contains(reply, "EMAIL_EXISTS"@) || text::contains(reply, "already exists"@)
            ==> api::signup_verdict(reply, parsed) == Err::<(), api::AppErrorView>(
            api::AppErrorView::Auth("Email already registered"@),
        ),
        !api::reports_taken_email(reply) && parsed is Ok && parsed->Ok_0.errors is Some ==>
            api::signup_verdict(reply, parsed) == Err::<(), api::AppErrorView>(api::AppErrorView::Auth(
                "Signup failed: "@ + text::join(api::messages(parsed->Ok_0.errors->Some_0@), ", "@),
            )),
        !api::reports_taken_email(reply) && parsed is Ok && parsed->Ok_0.errors is None
            && parsed->Ok_0.data is None ==> api::signup_verdict(reply, parsed) == Err::<
            (),
            api::AppErrorView,
        >(api::AppErrorView::Network("Empty API response"@)),
{
}

} // verus!
