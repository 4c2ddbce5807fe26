use mkb::config::Config;
use mkb::error::{EsiError, Rejection};
use mkb::esi::processor::{Job, JobQueue};
use mkb::esi::{EsiClient, Token};
use mkb::http::handlers::{
    auth, callback, callback_done, index, killmails, refresh, resolve, submit, Cookie, Response,
};
use mkb::http::state::AppState;
use mkb::models::User;

fn client() -> EsiClient {
    EsiClient::from_config(Config {
        application_id: "test-app".to_string(),
        application_secret: "hush".to_string(),
        redirect_uri: "http://localhost:3000/auth/callback".to_string(),
        database_uri: "postgres://localhost/mkb".to_string(),
    })
}

fn state(capacity: usize) -> AppState {
    AppState::new(JobQueue::new(capacity), &client())
}

fn reply(status: u16, content_type: &str, body: &str) -> Response {
    Response {
        status,
        content_type: content_type.to_string(),
        cookie: None,
        body: body.to_string(),
    }
}

fn user() -> User {
    User {
        character_id: 9,
        access_token: "a".to_string(),
        refresh_token: "r".to_string(),
        expires_at: 100,
        created_at: 1,
        updated_at: 1,
        last_fetched: None,
    }
}

#[test]
fn index_says_hello() {
    assert_eq!(index(), reply(200, "text/plain; charset=utf-8", "Hello, World!"));
}

#[test]
fn auth_links_to_the_provider_and_keeps_the_nonce() {
    let s = state(1);
    let page = auth(&s);
    let nonce = page.cookie.as_ref().unwrap().value.clone();
    assert_eq!(
        page,
        Response {
            status: 200,
            content_type: "text/html; charset=utf-8".to_string(),
            cookie: Some(Cookie {
                name: "mkb_state".to_string(),
                value: nonce.clone(),
                path: "/".to_string(),
            }),
            body: format!(
                "<a href=\"{}\">Authenticate with EVE Online</a>",
                s.client.auth_url(&nonce)
            ),
        }
    );
    assert_eq!(nonce.len(), 36);
}

#[test]
fn callback_hands_out_the_code_when_the_state_matches() {
    assert_eq!(
        callback(Some("n-1"), Some("n-1"), Some("the-code")),
        Ok(Token::AuthCode("the-code".to_string()))
    );
    assert_eq!(callback(Some("n-1"), Some("n-1"), None), Ok(Token::AuthCode(String::new())));
    assert_eq!(callback(Some(""), Some(""), Some("c")), Ok(Token::AuthCode("c".to_string())));
}

#[test]
fn callback_without_cookie_is_refused() {
    let refusal = Err(reply(400, "text/plain", "Missing state cookie"));
    assert_eq!(callback(None, Some("n-1"), Some("the-code")), refusal);
    assert_eq!(callback(None, None, None), refusal);
}

#[test]
fn callback_with_another_state_is_refused() {
    let refusal = Err(reply(400, "text/html", "Invalid state"));
    assert_eq!(callback(Some("n-1"), Some("n-2"), Some("the-code")), refusal);
    assert_eq!(callback(Some("n-1"), None, Some("the-code")), refusal);
    assert_eq!(callback(Some("n-1"), Some("n-1 "), Some("the-code")), refusal);
    assert_eq!(callback(Some("n-1"), Some(""), None), refusal);
}

#[test]
fn triggers_put_their_job_into_the_queue() {
    let mut s = state(3);
    assert_eq!(refresh(&mut s), reply(200, "application/json", ""));
    assert_eq!(killmails(&mut s), reply(200, "application/json", ""));
    assert_eq!(resolve(&mut s), reply(200, "application/json", ""));
    assert_eq!(s.jobs.recv(), Some(Job::Refresh));
    assert_eq!(s.jobs.recv(), Some(Job::Killmails));
    assert_eq!(s.jobs.recv(), Some(Job::ResolveKillmails));
    assert_eq!(s.jobs.recv(), None);
}

#[test]
fn triggers_on_a_full_queue_drop_their_job() {
    let mut s = state(1);
    assert_eq!(submit(&mut s, Job::Stop), reply(200, "application/json", ""));
    let full = reply(500, "text/html", "no available capacity");
    assert_eq!(refresh(&mut s), full);
    assert_eq!(killmails(&mut s), full);
    assert_eq!(resolve(&mut s), full);
    assert_eq!(submit(&mut s, Job::Refresh), full);
    assert_eq!(s.jobs.len(), 1);
    assert_eq!(s.jobs.recv(), Some(Job::Stop));
}

#[test]
fn finished_login_saves_the_account() {
    let mut s = state(1);
    assert_eq!(callback_done(&mut s, Ok(user())), reply(200, "application/json", ""));
    assert_eq!(
        callback_done(&mut s, Ok(user())),
        reply(500, "text/html", "no available capacity")
    );
    assert_eq!(s.jobs.len(), 1);
    assert_eq!(s.jobs.recv(), Some(Job::SaveCharacter(user())));
}

#[test]
fn failed_login_says_why_and_saves_nothing() {
    let mut s = state(1);
    assert_eq!(
        callback_done(&mut s, Err(EsiError::Validation(Rejection::Issuer))),
        reply(500, "text/html", "failed to validate JWT: JWT issuer is incorrect")
    );
    assert_eq!(
        callback_done(
            &mut s,
            Err(EsiError::Http { status: 400, body: "invalid_grant".to_string() })
        ),
        reply(500, "text/html", "request failed with status 400: invalid_grant")
    );
    assert!(s.jobs.is_empty());
}
