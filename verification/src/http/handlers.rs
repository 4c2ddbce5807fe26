use vstd::prelude::*;
use vstd::string::*;
use crate::error::EsiError;
use crate::esi::processor::{Job, JobView};
use crate::esi::encoding::is_nonce;
use crate::esi::{authorize_url, Token};
use crate::http::state::AppState;
use crate::models::User;
use crate::text::same_text;

verus! {

/// A cookie to set with a reply.
#[derive(Debug, PartialEq, Eq)]
pub struct Cookie {
    pub name: String,
    pub value: String,
    pub path: String,
}

/// A reply of the front end, as plain values.
#[derive(Debug, PartialEq, Eq)]
pub struct Response {
    pub status: u16,
    pub content_type: String,
    pub cookie: Option<Cookie>,
    pub body: String,
}

pub struct CookieView {
    pub name: Seq<char>,
    pub value: Seq<char>,
    pub path: Seq<char>,
}

pub struct ResponseView {
    pub status: int,
    pub content_type: Seq<char>,
    pub cookie: Option<CookieView>,
    pub body: Seq<char>,
}

impl View for Cookie {
    type V = CookieView;

    open spec fn view(&self) -> CookieView {
        CookieView { name: self.name@, value: self.value@, path: self.path@ }
    }
}

impl View for Response {
    type V = ResponseView;

    open spec fn view(&self) -> ResponseView {
        ResponseView {
            status: self.status as int,
            content_type: self.content_type@,
            cookie: match self.cookie {
                Some(c) => Some(c@),
                None => None,
            },
            body: self.body@,
        }
    }
}

/// A reply without a cookie.
pub open spec fn reply(status: int, content_type: Seq<char>, body: Seq<char>) -> ResponseView {
    ResponseView { status, content_type, cookie: None, body }
}

/// The reply to a request that was taken in: 200 and an empty body.
pub open spec fn accepted() -> ResponseView {
    reply(200, "application/json"@, Seq::empty())
}

/// The reply where the job queue is full and the job was dropped.
pub open spec fn queue_full() -> ResponseView {
    reply(500, "text/html"@, "no available capacity"@)
}

/// The reply where the token exchange failed.
pub open spec fn exchange_failed(error: EsiError) -> ResponseView {
    reply(500, "text/html"@, error@.message())
}

/// The page that starts a login: a link to the provider, and the nonce of
/// this attempt in a cookie.
pub open spec fn login_page(url: Seq<char>, nonce: Seq<char>) -> ResponseView {
    ResponseView {
        status: 200,
        content_type: "text/html; charset=utf-8"@,
        cookie: Some(CookieView { name: "mkb_state"@, value: nonce, path: "/"@ }),
        body: "<a href=\""@ + url + "\">Authenticate with EVE Online</a>"@,
    }
}

/// The text of an optional text.
pub open spec fn text_of(s: Option<&str>) -> Option<Seq<char>> {
    match s {
        Some(s) => Some(s@),
        None => None,
    }
}

/// What becomes of a login redirect: the code to exchange, or the reply that
/// turns the redirect down. The nonce in the cookie must be there and must be
/// the `state` that came back; a missing code is the empty code.
pub open spec fn callback_of(
    cookie: Option<Seq<char>>,
    state: Option<Seq<char>>,
    code: Option<Seq<char>>,
) -> Result<Seq<char>, ResponseView> {
    match cookie {
        None => Err(reply(400, "text/plain"@, "Missing state cookie"@)),
        Some(nonce) => if state != Some(nonce) {
            Err(reply(400, "text/html"@, "Invalid state"@))
        } else {
            match code {
                Some(code) => Ok(code),
                None => Ok(Seq::empty()),
            }
        },
    }
}

fn respond(status: u16, content_type: &str, body: String) -> (r: Response)
    ensures
        r@ == reply(status as int, content_type@, body@),
{
    Response { status, content_type: String::from_str(content_type), cookie: None, body }
}

pub fn index() -> (r: Response)
    ensures
        r@ == reply(200, "text/plain; charset=utf-8"@, "Hello, World!"@),
{
    respond(200, "text/plain; charset=utf-8", String::from_str("Hello, World!"))
}

/// Starts a login: makes a fresh nonce, and replies with the link to the
/// provider that carries it and with the cookie that keeps it.
pub fn auth(state: &AppState) -> (r: Response)
    ensures
        r@.cookie matches Some(c) && is_nonce(c.value) && r@ == login_page(
            authorize_url(state.client@, c.value),
            c.value,
        ),
{
    let (url, nonce) = state.client.build_auth_url();
    let mut body = String::from_str("<a href=\"");
    body.append(url.as_str());
    body.append("\">Authenticate with EVE Online</a>");
    Response {
        status: 200,
        content_type: String::from_str("text/html; charset=utf-8"),
        cookie: Some(
            Cookie { name: String::from_str("mkb_state"), value: nonce, path: String::from_str("/") },
        ),
        body,
    }
}

/// Checks a login redirect before anything is sent to the provider:
/// `cookie_state` is the nonce from the cookie, `query_state` and `code` are
/// the parameters of the redirect.
pub fn callback(cookie_state: Option<&str>, query_state: Option<&str>, code: Option<&str>) -> (r:
    Result<Token, Response>)
    ensures
        match callback_of(text_of(cookie_state), text_of(query_state), text_of(code)) {
            Ok(code) => r matches Ok(Token::AuthCode(c)) && c@ == code,
            Err(refusal) => r is Err && r->Err_0@ == refusal,
        },
{
    let nonce = match cookie_state {
        Some(nonce) => nonce,
        None => {
            return Err(respond(400, "text/plain", String::from_str("Missing state cookie")));
        },
    };
    let same = match query_state {
        Some(state) => same_text(state, nonce),
        None => false,
    };
    if !same {
        return Err(respond(400, "text/html", String::from_str("Invalid state")));
    }
    match code {
        Some(code) => Ok(Token::AuthCode(String::from_str(code))),
        None => Ok(Token::AuthCode(String::new())),
    }
}

/// Puts a job into the queue without waiting. A full queue drops the job,
/// and the reply says so.
pub fn submit(state: &mut AppState, job: Job) -> (r: Response)
    ensures
        final(state).jobs@ == old(state).jobs@.offer(job@),
        final(state).client == old(state).client,
        r@ == if old(state).jobs@.is_full() {
            queue_full()
        } else {
            accepted()
        },
{
    match state.jobs.try_send(job) {
        Ok(()) => respond(200, "application/json", String::new()),
        Err(_) => respond(500, "text/html", String::from_str("no available capacity")),
    }
}

/// Ends a login: where the exchange gave an account, a job that saves it is
/// put into the queue; where it failed, the reply says why.
pub fn callback_done(state: &mut AppState, outcome: Result<User, EsiError>) -> (r: Response)
    ensures
        final(state).client == old(state).client,
        match outcome {
            Ok(user) => final(state).jobs@ == old(state).jobs@.offer(JobView::SaveCharacter(user@))
                && r@ == if old(state).jobs@.is_full() {
                queue_full()
            } else {
                accepted()
            },
            Err(error) => final(state).jobs@ == old(state).jobs@ && r@ == exchange_failed(error),
        },
{
    match outcome {
        Ok(user) => submit(state, Job::SaveCharacter(user)),
        Err(error) => respond(500, "text/html", error.message()),
    }
}

/// Asks for a round of token renewals.
pub fn refresh(state: &mut AppState) -> (r: Response)
    ensures
        final(state).jobs@ == old(state).jobs@.offer(JobView::Refresh),
        final(state).client == old(state).client,
        r@ == if old(state).jobs@.is_full() {
            queue_full()
        } else {
            accepted()
        },
{
    submit(state, Job::Refresh)
}

/// Asks for a round of killmail listings.
pub fn killmails(state: &mut AppState) -> (r: Response)
    ensures
        final(state).jobs@ == old(state).jobs@.offer(JobView::Killmails),
        final(state).client == old(state).client,
        r@ == if old(state).jobs@.is_full() {
            queue_full()
        } else {
            accepted()
        },
{
    submit(state, Job::Killmails)
}

/// Asks for a round of killmail resolutions.
pub fn resolve(state: &mut AppState) -> (r: Response)
    ensures
        final(state).jobs@ == old(state).jobs@.offer(JobView::ResolveKillmails),
        final(state).client == old(state).client,
        r@ == if old(state).jobs@.is_full() {
            queue_full()
        } else {
            accepted()
        },
{
    submit(state, Job::ResolveKillmails)
}

} // verus!
