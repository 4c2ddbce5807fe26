use vstd::prelude::*;
use vstd::string::*;
use crate::config::Config;
use crate::esi::encoding::{base64_url, is_nonce, percent_encoded};
use crate::http::{pairs, HttpRequest, HttpRequestView, Method};
use crate::esi::auth::{accepted_audiences_of, required_claims_of};
use crate::models::{texts, User, UserView};
use crate::text::{decimal, push_integer};
use crate::time::{rfc2822_text, RFC2822_MAX, RFC2822_MIN};

pub mod auth;
pub mod encoding;
pub mod jwt;
pub mod killmail;
pub mod processor;
pub mod scheduler;

verus! {

/// What is handed to the provider's token endpoint in exchange for tokens.
#[derive(Debug, PartialEq, Eq)]
pub enum Token {
    /// The code that the provider sent back with the login redirect.
    AuthCode(String),
    /// The refresh token of an account that logged in before.
    RefreshToken(String),
}

/// The client of the authorization provider and of the data API. It holds the
/// application's credentials and nothing else: it builds requests and reads
/// replies, and leaves the sending to its caller.
#[derive(Debug, PartialEq, Eq)]
pub struct EsiClient {
    app_id: String,
    app_secret: String,
    redirect_uri: String,
}

pub struct EsiClientView {
    pub app_id: Seq<char>,
    pub app_secret: Seq<char>,
    pub redirect_uri: Seq<char>,
}

impl View for EsiClient {
    type V = EsiClientView;

    closed spec fn view(&self) -> EsiClientView {
        EsiClientView {
            app_id: self.app_id@,
            app_secret: self.app_secret@,
            redirect_uri: self.redirect_uri@,
        }
    }
}

impl Clone for EsiClient {
    fn clone(&self) -> (r: Self)
        ensures
            r@ == self@,
    {
        EsiClient {
            app_id: self.app_id.clone(),
            app_secret: self.app_secret.clone(),
            redirect_uri: self.redirect_uri.clone(),
        }
    }
}

/// The address to which a user is sent to log in, for a given nonce. The
/// parameters stand in a fixed order, each value percent-encoded.
pub open spec fn authorize_url(client: EsiClientView, nonce: Seq<char>) -> Seq<char> {
    "https://login.eveonline.com/v2/oauth/authorize?"@ + "response_type="@ + percent_encoded(
        "code"@,
    ) + "&client_id="@ + percent_encoded(client.app_id) + "&redirect_uri="@ + percent_encoded(
        client.redirect_uri,
    ) + "&scope="@ + percent_encoded(
        "publicData esi-killmails.read_killmails.v1 esi-killmails.read_corporation_killmails.v1"@,
    ) + "&state="@ + percent_encoded(nonce)
}

/// The value of the `Authorization` header by which the application
/// identifies itself at the token endpoint.
pub open spec fn basic_auth(client: EsiClientView) -> Seq<char> {
    base64_url(client.app_id + ":"@ + client.app_secret)
}

/// The form fields of a token request.
pub open spec fn grant(token: Token) -> Seq<(Seq<char>, Seq<char>)> {
    match token {
        Token::AuthCode(code) => seq![
            ("grant_type"@, "authorization_code"@),
            ("code"@, code@),
        ],
        Token::RefreshToken(refresh_token) => seq![
            ("grant_type"@, "refresh_token"@),
            ("refresh_token"@, refresh_token@),
        ],
    }
}

/// The request that exchanges a code or a refresh token for tokens.
pub open spec fn token_request_of(client: EsiClientView, token: Token) -> HttpRequestView {
    HttpRequestView {
        method: Method::Post,
        url: "https://login.eveonline.com/v2/oauth/token"@,
        headers: seq![
            ("Authorization"@, "Basic "@ + basic_auth(client)),
            ("Content-Type"@, "application/x-www-form-urlencoded"@),
        ],
        form: grant(token),
    }
}

/// The request for the provider's current signing keys.
pub open spec fn keys_request_of() -> HttpRequestView {
    HttpRequestView {
        method: Method::Get,
        url: "https://login.eveonline.com/oauth/jwks"@,
        headers: Seq::empty(),
        form: Seq::empty(),
    }
}

/// The `If-Modified-Since` header of a listing request: present where the
/// account was fetched before, at a time that RFC 2822 can write.
pub open spec fn modified_since(last_fetched: Option<int>) -> Seq<(Seq<char>, Seq<char>)> {
    match last_fetched {
        Some(t) => if RFC2822_MIN <= t <= RFC2822_MAX {
            seq![("If-Modified-Since"@, rfc2822_text(t))]
        } else {
            Seq::empty()
        },
        None => Seq::empty(),
    }
}

/// The request for the recent killmails of one account.
pub open spec fn killmails_request_of(user: UserView) -> HttpRequestView {
    HttpRequestView {
        method: Method::Get,
        url: "https://esi.evetech.net/latest/characters/"@ + decimal(user.character_id)
            + "/killmails/recent/"@,
        headers: seq![("Authorization"@, "Bearer "@ + user.access_token)] + modified_since(
            user.last_fetched,
        ),
        form: Seq::empty(),
    }
}

/// The request for the detail of one killmail.
pub open spec fn killmail_request_of(killmail_id: int, killmail_hash: Seq<char>) -> HttpRequestView {
    HttpRequestView {
        method: Method::Get,
        url: "https://esi.evetech.net/killmails/"@ + decimal(killmail_id) + "/"@ + killmail_hash,
        headers: Seq::empty(),
        form: Seq::empty(),
    }
}

fn pair(name: &str, value: String) -> (r: (String, String))
    ensures
        r.0@ == name@,
        r.1@ == value@,
{
    (String::from_str(name), value)
}

impl EsiClient {
    pub fn from_config(config: Config) -> (r: EsiClient)
        ensures
            r@.app_id == config.application_id@,
            r@.app_secret == config.application_secret@,
            r@.redirect_uri == config.redirect_uri@,
    {
        EsiClient {
            app_id: config.application_id,
            app_secret: config.application_secret,
            redirect_uri: config.redirect_uri,
        }
    }

    /// The claims that a token must carry to be decoded at all.
    pub fn required_claims() -> (r: Vec<String>)
        ensures
            texts(r@) == required_claims_of(),
    {
        let mut required: Vec<String> = Vec::new();
        required.push(String::from_str("sub"));
        assert(texts(required@) =~= required_claims_of());
        required
    }

    /// The audiences of which a token must name one.
    pub fn accepted_audiences(&self) -> (r: Vec<String>)
        ensures
            texts(r@) == accepted_audiences_of(self@),
    {
        let mut audiences: Vec<String> = Vec::new();
        audiences.push(self.app_id.clone());
        audiences.push(String::from_str("EVE Online"));
        assert(texts(audiences@) =~= accepted_audiences_of(self@));
        audiences
    }

    /// The login address for a nonce that the caller made.
    pub fn auth_url(&self, nonce: &str) -> (r: String)
        ensures
            r@ == authorize_url(self@, nonce@),
    {
        let mut url = String::from_str("https://login.eveonline.com/v2/oauth/authorize?");
        url.append("response_type=");
        url.append(encoding::percent_encode("code").as_str());
        url.append("&client_id=");
        url.append(encoding::percent_encode(self.app_id.as_str()).as_str());
        url.append("&redirect_uri=");
        url.append(encoding::percent_encode(self.redirect_uri.as_str()).as_str());
        url.append("&scope=");
        url.append(
            encoding::percent_encode(
                "publicData esi-killmails.read_killmails.v1 esi-killmails.read_corporation_killmails.v1",
            ).as_str(),
        );
        url.append("&state=");
        url.append(encoding::percent_encode(nonce).as_str());
        url
    }

    /// Makes a fresh random nonce and the login address that carries it as
    /// `state`. The caller keeps the nonce and compares it with the `state`
    /// that comes back with the redirect.
    pub fn build_auth_url(&self) -> (r: (String, String))
        ensures
            is_nonce(r.1@),
            r.0@ == authorize_url(self@, r.1@),
    {
        let nonce = encoding::fresh_nonce();
        let url = self.auth_url(nonce.as_str());
        (url, nonce)
    }

    pub fn build_basic_auth(&self) -> (r: String)
        ensures
            r@ == basic_auth(self@),
    {
        let mut plain = self.app_id.clone();
        plain.append(":");
        plain.append(self.app_secret.as_str());
        encoding::base64_url_encode(plain.as_str())
    }

    pub fn build_payload(&self, token: Token) -> (r: Vec<(String, String)>)
        ensures
            pairs(r@) == grant(token),
    {
        let mut form: Vec<(String, String)> = Vec::new();
        match token {
            Token::AuthCode(code) => {
                form.push(pair("grant_type", String::from_str("authorization_code")));
                form.push(pair("code", code));
            },
            Token::RefreshToken(refresh_token) => {
                form.push(pair("grant_type", String::from_str("refresh_token")));
                form.push(pair("refresh_token", refresh_token));
            },
        }
        assert(pairs(form@) =~= grant(token));
        form
    }

    /// The request that exchanges `token` for an access and a refresh token.
    pub fn token_request(&self, token: Token) -> (r: HttpRequest)
        ensures
            r@ == token_request_of(self@, token),
    {
        let mut authorization = String::from_str("Basic ");
        authorization.append(self.build_basic_auth().as_str());
        let mut headers: Vec<(String, String)> = Vec::new();
        headers.push(pair("Authorization", authorization));
        headers.push(
            pair("Content-Type", String::from_str("application/x-www-form-urlencoded")),
        );
        assert(pairs(headers@) =~= token_request_of(self@, token).headers);
        HttpRequest {
            method: Method::Post,
            url: String::from_str("https://login.eveonline.com/v2/oauth/token"),
            headers,
            form: self.build_payload(token),
        }
    }

    /// The request for the provider's signing keys. They are fetched anew for
    /// every token that is validated.
    pub fn keys_request() -> (r: HttpRequest)
        ensures
            r@ == keys_request_of(),
    {
        let headers: Vec<(String, String)> = Vec::new();
        let form: Vec<(String, String)> = Vec::new();
        assert(pairs(headers@) =~= Seq::empty());
        assert(pairs(form@) =~= Seq::empty());
        HttpRequest {
            method: Method::Get,
            url: String::from_str("https://login.eveonline.com/oauth/jwks"),
            headers,
            form,
        }
    }

    /// The request for the recent killmails of `user`, with the user's access
    /// token as bearer and, where the user was fetched before, the time of
    /// that fetch as `If-Modified-Since`.
    pub fn killmails_request(&self, user: &User) -> (r: HttpRequest)
        ensures
            r@ == killmails_request_of(user@),
    {
        let mut url = String::from_str("https://esi.evetech.net/latest/characters/");
        push_integer(&mut url, user.character_id);
        url.append("/killmails/recent/");
        let mut bearer = String::from_str("Bearer ");
        bearer.append(user.access_token.as_str());
        let mut headers: Vec<(String, String)> = Vec::new();
        headers.push(pair("Authorization", bearer));
        match user.last_fetched {
            Some(t) => {
                if RFC2822_MIN <= t && t <= RFC2822_MAX {
                    match crate::time::rfc2822(t) {
                        Some(text) => {
                            headers.push(pair("If-Modified-Since", text));
                        },
                        None => {},
                    }
                }
            },
            None => {},
        }
        let form: Vec<(String, String)> = Vec::new();
        assert(pairs(headers@) =~= killmails_request_of(user@).headers);
        assert(pairs(form@) =~= Seq::empty());
        HttpRequest { method: Method::Get, url, headers, form }
    }

    /// The request for the detail of the killmail with the given identifier
    /// and hash.
    pub fn killmail_request(killmail_id: i64, killmail_hash: &str) -> (r: HttpRequest)
        ensures
            r@ == killmail_request_of(killmail_id as int, killmail_hash@),
    {
        let mut url = String::from_str("https://esi.evetech.net/killmails/");
        push_integer(&mut url, killmail_id);
        url.append("/");
        url.append(killmail_hash);
        let headers: Vec<(String, String)> = Vec::new();
        let form: Vec<(String, String)> = Vec::new();
        assert(pairs(headers@) =~= Seq::empty());
        assert(pairs(form@) =~= Seq::empty());
        HttpRequest { method: Method::Get, url, headers, form }
    }
}

} // verus!
