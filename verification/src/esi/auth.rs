use vstd::prelude::*;
use vstd::string::*;
use crate::error::{EsiError, EsiErrorView, Rejection};
use crate::esi::jwt;
use crate::esi::jwt::{jwk_key, jwk_read, passed, share_member};
use crate::esi::processor::{job_views, Job, JobView};
use crate::esi::{token_request_of, EsiClient, EsiClientView, Token};
use crate::http::{document_of, read_document, HttpReply, HttpRequest};
use crate::json::{
    json_view, json_views, read_array, read_integer, read_text, strings_of, Json,
};
use crate::models::{character_id, character_id_of, texts, Claims, ClaimsView, User, UserView};
use crate::text::{chars_of, push_char, same_text};

verus! {

/// The two tokens that the provider hands out.
#[derive(Debug, PartialEq, Eq)]
pub struct TokenPair {
    pub access_token: String,
    pub refresh_token: String,
}

/// The tokens in what the token endpoint sent back: both must be there as
/// strings.
pub open spec fn tokens_of(fetched: Result<HttpReply, String>) -> Result<
    (Seq<char>, Seq<char>),
    EsiErrorView,
> {
    match document_of(fetched) {
        Err(e) => Err(e),
        Ok(doc) => match (doc.text("access_token"@), doc.text("refresh_token"@)) {
            (Some(access), Some(refresh)) => Ok((access, refresh)),
            _ => Err(EsiErrorView::Decode),
        },
    }
}

/// Whether a key of the provider's key set is meant for RS256.
pub open spec fn is_rs256(key: Json) -> bool {
    key.text("alg"@) == Some("RS256"@)
}

/// The first key for RS256 in a list of keys.
pub open spec fn first_rs256(keys: Seq<Json>) -> Option<Json>
    decreases keys.len(),
{
    if keys.len() == 0 {
        None
    } else if is_rs256(keys[0]) {
        Some(keys[0])
    } else {
        first_rs256(keys.skip(1))
    }
}

/// The key that verifies RS256 signatures, out of what the key-set endpoint
/// sent back.
pub open spec fn signing_key_of(fetched: Result<HttpReply, String>) -> Result<
    jsonwebtoken::DecodingKey,
    EsiErrorView,
> {
    match document_of(fetched) {
        Err(e) => Err(e),
        Ok(doc) => match doc.array("keys"@) {
            None => Err(EsiErrorView::Validation(Rejection::NoSigningKey)),
            Some(keys) => match first_rs256(keys) {
                None => Err(EsiErrorView::Validation(Rejection::NoSigningKey)),
                Some(key) => match jwk_read(key) {
                    None => Err(EsiErrorView::Validation(Rejection::InvalidKey)),
                    Some(jwk) => match jwk_key(jwk) {
                        None => Err(EsiErrorView::Validation(Rejection::InvalidKey)),
                        Some(k) => Ok(k),
                    },
                },
            },
        },
    }
}

/// The two issuers whose tokens are accepted: the provider's host, with and
/// without the scheme in front.
pub open spec fn accepted_issuer(iss: Seq<char>) -> bool {
    iss == "login.eveonline.com"@ || iss == "https://login.eveonline.com"@
}

/// The audiences that a token's claims name: the `aud` member as a list of
/// strings.
pub open spec fn audiences_of(payload: Json) -> Option<Seq<Seq<char>>> {
    match payload.array("aud"@) {
        Some(items) => strings_of(items),
        None => None,
    }
}

/// The claims that a decoded token carries, or why they are not accepted.
/// The issuer is looked at first: a token without one, or with another than
/// the two accepted, is turned down whatever else it holds. Then the
/// audiences, the expiry and the subject must be there, and the subject must
/// name a character.
pub open spec fn claims_of(payload: Json) -> Result<ClaimsView, Rejection> {
    match payload.text("iss"@) {
        None => Err(Rejection::Issuer),
        Some(iss) => if !accepted_issuer(iss) {
            Err(Rejection::Issuer)
        } else {
            match (
                audiences_of(payload),
                payload.integer("exp"@),
                payload.text("sub"@),
            ) {
                (Some(aud), Some(exp), Some(sub)) => if character_id_of(sub) is Some {
                    Ok(ClaimsView { aud, exp: exp as int, iss, sub })
                } else {
                    Err(Rejection::Claims)
                },
                _ => Err(Rejection::Claims),
            }
        },
    }
}

/// A text without the `c` at its start, however many there are.
pub open spec fn trim_start(s: Seq<char>, c: char) -> Seq<char>
    decreases s.len(),
{
    if s.len() > 0 && s[0] == c {
        trim_start(s.skip(1), c)
    } else {
        s
    }
}

/// A text without the `c` at its end, however many there are.
pub open spec fn trim_end(s: Seq<char>, c: char) -> Seq<char>
    decreases s.len(),
{
    if s.len() > 0 && s.last() == c {
        trim_end(s.drop_last(), c)
    } else {
        s
    }
}

/// A token as it is handed to the decoder: without double quotes around it.
pub open spec fn unquoted(token: Seq<char>) -> Seq<char> {
    trim_end(trim_start(token, '"'), '"')
}

/// Takes the double quotes off both ends of a token.
pub fn unquote(token: &str) -> (r: String)
    ensures
        r@ == unquoted(token@),
{
    let chars = chars_of(token);
    let n = chars.len();
    let mut lo: usize = 0;
    assert(chars@.skip(0) =~= chars@);
    while lo < n && chars[lo] == '"'
        invariant
            n == chars.len(),
            lo <= n,
            trim_start(chars@, '"') == trim_start(chars@.skip(lo as int), '"'),
        decreases n - lo,
    {
        proof {
            assert(chars@.skip(lo as int).skip(1) =~= chars@.skip(lo + 1));
        }
        lo += 1;
    }
    let ghost rest = chars@.skip(lo as int);
    assert(trim_start(chars@, '"') == rest);
    let mut hi: usize = n;
    assert(rest.take(n - lo) =~= rest);
    while hi > lo && chars[hi - 1] == '"'
        invariant
            n == chars.len(),
            lo <= hi <= n,
            rest == chars@.skip(lo as int),
            trim_end(rest, '"') == trim_end(rest.take(hi - lo), '"'),
        decreases hi,
    {
        proof {
            assert(rest.take(hi - lo).drop_last() =~= rest.take(hi - lo - 1));
        }
        hi -= 1;
    }
    assert(trim_end(rest, '"') == rest.take(hi - lo));
    let mut out = String::new();
    let mut i: usize = lo;
    while i < hi
        invariant
            n == chars.len(),
            lo <= i <= hi <= n,
            rest == chars@.skip(lo as int),
            out@ == rest.take(i - lo),
        decreases hi - i,
    {
        push_char(&mut out, chars[i]);
        i += 1;
        assert(out@ =~= rest.take(i - lo));
    }
    out
}

/// Reads the tokens out of what the token endpoint sent back.
pub fn read_tokens(fetched: &Result<HttpReply, String>) -> (r: Result<TokenPair, EsiError>)
    ensures
        match tokens_of(*fetched) {
            Ok((access, refresh)) => r is Ok && r->Ok_0.access_token@ == access
                && r->Ok_0.refresh_token@ == refresh,
            Err(e) => r is Err && r->Err_0@ == e,
        },
{
    let doc = match read_document(fetched) {
        Ok(doc) => doc,
        Err(e) => {
            return Err(e);
        },
    };
    let access = match read_text(&doc, "access_token") {
        Some(t) => String::from_str(t),
        None => {
            return Err(EsiError::Decode);
        },
    };
    let refresh = match read_text(&doc, "refresh_token") {
        Some(t) => String::from_str(t),
        None => {
            return Err(EsiError::Decode);
        },
    };
    Ok(TokenPair { access_token: access, refresh_token: refresh })
}

/// Finds the first key for RS256.
fn find_rs256(keys: &Vec<serde_json::Value>) -> (r: Option<usize>)
    ensures
        match r {
            Some(i) => i < keys.len() && first_rs256(json_views(keys@)) == Some(
                json_view(keys@[i as int]),
            ),
            None => first_rs256(json_views(keys@)) is None,
        },
{
    let ghost all = json_views(keys@);
    let mut i: usize = 0;
    proof {
        assert(all.skip(0) =~= all);
    }
    while i < keys.len()
        invariant
            i <= keys.len(),
            all == json_views(keys@),
            first_rs256(all) == first_rs256(all.skip(i as int)),
        decreases keys.len() - i,
    {
        let rs256 = match read_text(&keys[i], "alg") {
            Some(alg) => same_text(alg, "RS256"),
            None => false,
        };
        if rs256 {
            return Some(i);
        }
        proof {
            assert(all.skip(i as int).skip(1) =~= all.skip(i + 1));
        }
        i += 1;
    }
    None
}

/// Reads a list of JSON strings.
fn read_strings(items: &Vec<serde_json::Value>) -> (r: Option<Vec<String>>)
    ensures
        r is Some <==> strings_of(json_views(items@)) is Some,
        r matches Some(v) ==> strings_of(json_views(items@)) == Some(texts(v@)),
{
    let ghost all = json_views(items@);
    let mut out: Vec<String> = Vec::new();
    let mut i: usize = 0;
    assert(texts(out@) =~= Seq::<Seq<char>>::empty());
    while i < items.len()
        invariant
            i <= items.len(),
            all == json_views(items@),
            strings_of(all.take(i as int)) == Some(texts(out@)),
        decreases items.len() - i,
    {
        proof {
            assert(all.take(i + 1).drop_last() =~= all.take(i as int));
        }
        match crate::json::as_str(&items[i]) {
            Some(s) => {
                let ghost before = texts(out@);
                out.push(String::from_str(s));
                assert(texts(out@) =~= before.push(s@));
            },
            None => {
                proof {
                    lemma_strings_prefix_fails(all, i + 1);
                }
                return None;
            },
        }
        i += 1;
    }
    assert(all.take(i as int) =~= all);
    Some(out)
}

/// Where a prefix of a list holds something that is no string, so does the
/// list.
pub proof fn lemma_strings_prefix_fails(items: Seq<Json>, n: int)
    requires
        0 <= n <= items.len(),
        strings_of(items.take(n)) is None,
    ensures
        strings_of(items) is None,
    decreases items.len() - n,
{
    if n < items.len() {
        assert(items.take(n + 1).drop_last() =~= items.take(n));
        lemma_strings_prefix_fails(items, n + 1);
    } else {
        assert(items.take(n) =~= items);
    }
}

/// Checks the claims of a decoded token and reads them. The token's issuer
/// must be one of the two accepted; its audiences, expiry and subject must be
/// there, and the subject must name a character.
pub fn check_claims(payload: &serde_json::Value) -> (r: Result<Claims, EsiError>)
    ensures
        match claims_of(json_view(*payload)) {
            Ok(claims) => r is Ok && r->Ok_0@ == claims,
            Err(rejection) => r is Err && r->Err_0@ == EsiErrorView::Validation(rejection),
        },
{
    let iss = match read_text(payload, "iss") {
        Some(iss) => iss,
        None => {
            return Err(EsiError::Validation(Rejection::Issuer));
        },
    };
    if !same_text(iss, "login.eveonline.com") && !same_text(iss, "https://login.eveonline.com") {
        return Err(EsiError::Validation(Rejection::Issuer));
    }
    let aud = match read_array(payload, "aud") {
        Some(items) => read_strings(items),
        None => None,
    };
    let exp = read_integer(payload, "exp");
    let sub = read_text(payload, "sub");
    match (aud, exp, sub) {
        (Some(aud), Some(exp), Some(sub)) => {
            if character_id(sub).is_some() {
                Ok(Claims { aud, exp, iss: String::from_str(iss), sub: String::from_str(sub) })
            } else {
                Err(EsiError::Validation(Rejection::Claims))
            }
        },
        _ => Err(EsiError::Validation(Rejection::Claims)),
    }
}

/// What becomes of a decoder's verdict on a token.
pub open spec fn verdict_of(decoded: Result<serde_json::Value, jsonwebtoken::errors::Error>) -> Result<
    ClaimsView,
    Rejection,
> {
    match decoded {
        Ok(payload) => claims_of(json_view(payload)),
        Err(_) => Err(Rejection::Token),
    }
}

/// Turns the decoder's verdict on a token into the outcome of validation: a
/// token that the decoder turned down is rejected, and the claims of one
/// that it let through are checked.
pub fn judge(decoded: Result<serde_json::Value, jsonwebtoken::errors::Error>) -> (r: Result<
    Claims,
    EsiError,
>)
    ensures
        match verdict_of(decoded) {
            Ok(claims) => r is Ok && r->Ok_0@ == claims,
            Err(rejection) => r is Err && r->Err_0@ == EsiErrorView::Validation(rejection),
        },
{
    match decoded {
        Ok(payload) => check_claims(&payload),
        Err(_) => Err(EsiError::Validation(Rejection::Token)),
    }
}

/// The claims on whose presence the decoder insists: the subject.
pub open spec fn required_claims_of() -> Seq<Seq<char>> {
    seq!["sub"@]
}

/// The audiences of which a token must name one: this application and the
/// provider's fixed audience.
pub open spec fn accepted_audiences_of(client: EsiClientView) -> Seq<Seq<char>> {
    seq![client.app_id, "EVE Online"@]
}

/// What becomes of the outcome of a validation: the account of the claims
/// that came through, first seen at `now`, or the error that came instead.
/// No account stands for a token that was rejected.
pub open spec fn account_of(
    access_token: Seq<char>,
    refresh_token: Seq<char>,
    outcome: Result<Claims, EsiError>,
    now: int,
) -> Result<UserView, EsiErrorView> {
    match outcome {
        Err(e) => Err(e@),
        Ok(claims) => match User::issued(access_token, refresh_token, claims@, now) {
            Some(user) => Ok(user),
            None => Err(EsiErrorView::Validation(Rejection::Claims)),
        },
    }
}

/// Builds the account for a pair of tokens from the outcome of the access
/// token's validation, as of the time `now`. A rejection is handed on, and
/// claims whose subject names no character are rejected.
pub fn account_for(tokens: TokenPair, outcome: Result<Claims, EsiError>, now: i64) -> (r: Result<
    User,
    EsiError,
>)
    ensures
        match account_of(tokens.access_token@, tokens.refresh_token@, outcome, now as int) {
            Ok(user) => r is Ok && r->Ok_0@ == user,
            Err(e) => r is Err && r->Err_0@ == e,
        },
{
    match outcome {
        Err(e) => Err(e),
        Ok(claims) => match User::at(tokens.access_token, tokens.refresh_token, claims, now) {
            Some(user) => Ok(user),
            None => Err(EsiError::Validation(Rejection::Claims)),
        },
    }
}

/// The save jobs that a round of token renewals gives rise to: one for each
/// renewal that succeeded, in the order of the renewals. One that failed adds
/// nothing and takes nothing away.
pub open spec fn renewed_jobs(outcomes: Seq<Result<User, EsiError>>) -> Seq<JobView>
    decreases outcomes.len(),
{
    if outcomes.len() == 0 {
        Seq::empty()
    } else {
        renewed_jobs(outcomes.drop_last()) + (match outcomes.last() {
            Ok(user) => seq![JobView::SaveCharacter(user@)],
            Err(_) => Seq::empty(),
        })
    }
}

impl EsiClient {
    /// Picks the key for RS256 out of what the key-set endpoint sent back and
    /// makes a verification key of it.
    pub fn get_rsa256_key(fetched: &Result<HttpReply, String>) -> (r: Result<
        jsonwebtoken::DecodingKey,
        EsiError,
    >)
        ensures
            match signing_key_of(*fetched) {
                Ok(key) => r == Ok::<jsonwebtoken::DecodingKey, EsiError>(key),
                Err(e) => r is Err && r->Err_0@ == e,
            },
    {
        let doc = match read_document(fetched) {
            Ok(doc) => doc,
            Err(e) => {
                return Err(e);
            },
        };
        let keys = match read_array(&doc, "keys") {
            Some(keys) => keys,
            None => {
                return Err(EsiError::Validation(Rejection::NoSigningKey));
            },
        };
        let found = match find_rs256(keys) {
            Some(i) => i,
            None => {
                return Err(EsiError::Validation(Rejection::NoSigningKey));
            },
        };
        let jwk = match jwt::read_jwk(&keys[found]) {
            Ok(jwk) => jwk,
            Err(_) => {
                return Err(EsiError::Validation(Rejection::InvalidKey));
            },
        };
        match jwt::key_from_jwk(&jwk) {
            Ok(key) => Ok(key),
            Err(_) => Err(EsiError::Validation(Rejection::InvalidKey)),
        }
    }

    /// Validates an access token against a key of the provider: the
    /// signature must fit RS256 and the key, the token must name a subject
    /// and be meant for this application or for the provider's fixed
    /// audience, and its issuer must be one of the two accepted.
    ///
    /// The decoder is handed the token without quotes around it, the key as
    /// it came, `required_claims` and `accepted_audiences`. Whether the
    /// signature fits and the token is still valid is for the decoder and
    /// the clock to say; `judge` says what becomes of their verdict.
    /// Whatever they say, the claims that come through name an accepted
    /// issuer, one of the accepted audiences and a character, and every
    /// failure is a validation error.
    pub fn validate_jwt(&self, token: &String, key: &jsonwebtoken::DecodingKey) -> (r: Result<
        Claims,
        EsiError,
    >)
        ensures
            r matches Ok(claims) ==> {
                &&& accepted_issuer(claims@.iss)
                &&& claims@.aud.contains(self@.app_id) || claims@.aud.contains("EVE Online"@)
                &&& character_id_of(claims@.sub) is Some
                &&& exists|payload: Json|
                    passed(payload, required_claims_of(), accepted_audiences_of(self@))
                        && #[trigger] claims_of(payload) == Ok::<ClaimsView, Rejection>(claims@)
            },
            r matches Err(e) ==> e@ matches EsiErrorView::Validation(rejection) && (rejection
                is Token || rejection is Issuer || rejection is Claims),
    {
        let required = EsiClient::required_claims();
        let audiences = self.accepted_audiences();
        let bare = unquote(token.as_str());
        let decoded = jwt::decode_rs256(bare.as_str(), key, &required, &audiences);
        let r = judge(decoded);
        proof {
            if r is Ok {
                let claims = r->Ok_0;
                let payload = json_view(decoded->Ok_0);
                assert(claims_of(payload) == Ok::<ClaimsView, Rejection>(claims@));
                assert(passed(payload, required_claims_of(), accepted_audiences_of(self@)));
                let named = accepted_audiences_of(self@);
                assert(share_member(claims@.aud, named));
                let (i, j) = choose|i: int, j: int|
                    0 <= i < claims@.aud.len() && 0 <= j < named.len() && claims@.aud[i]
                        == named[j];
                assert(named[0] == self@.app_id && named[1] == "EVE Online"@);
                assert(claims@.aud.contains(claims@.aud[i]));
            }
        }
        r
    }

    /// The second half of a token exchange, after `read_tokens` has read the
    /// pair out of the token endpoint's reply: validates the access token
    /// against what the key-set endpoint sent back and builds the account.
    ///
    /// A failure to get the signing key is reported as it is. With a key,
    /// the token is validated by `validate_jwt`, and `account_for` says what
    /// becomes of the outcome: a token that was rejected gives no account.
    /// An account that comes back holds the two tokens and stands for claims
    /// that name an accepted issuer, an accepted audience and the account's
    /// character.
    pub fn token_exchange(&self, tokens: TokenPair, keys: &Result<HttpReply, String>) -> (r: Result<
        User,
        EsiError,
    >)
        ensures
            signing_key_of(*keys) matches Err(e) ==> r is Err && r->Err_0@ == e,
            signing_key_of(*keys) is Ok && r is Err ==> r->Err_0@ is Validation,
            r matches Ok(user) ==> exists|claims: ClaimsView|
                {
                    &&& accepted_issuer(claims.iss)
                    &&& claims.aud.contains(self@.app_id) || claims.aud.contains("EVE Online"@)
                    &&& Some(user@) == #[trigger] User::issued(
                        tokens.access_token@,
                        tokens.refresh_token@,
                        claims,
                        user@.created_at,
                    )
                },
    {
        let key = match EsiClient::get_rsa256_key(keys) {
            Ok(key) => key,
            Err(e) => {
                return Err(e);
            },
        };
        let outcome = self.validate_jwt(&tokens.access_token, &key);
        let ghost seen = outcome;
        let r = account_for(tokens, outcome, crate::time::now());
        proof {
            if r is Ok {
                let user = r->Ok_0;
                let claims = seen->Ok_0@;
                assert(Some(user@) == User::issued(
                    tokens.access_token@,
                    tokens.refresh_token@,
                    claims,
                    user@.created_at,
                ));
            }
        }
        r
    }

    /// The request that renews the tokens of `user`.
    pub fn refresh_request(&self, user: &User) -> (r: HttpRequest)
        ensures
            r@ == token_request_of(self@, Token::RefreshToken(user.refresh_token)),
    {
        self.token_request(Token::RefreshToken(user.refresh_token.clone()))
    }

    /// Turns the outcomes of a round of token renewals into save jobs, one
    /// for each account that was renewed.
    pub fn refresh(&self, outcomes: &Vec<Result<User, EsiError>>) -> (r: Vec<Job>)
        ensures
            job_views(r@) == renewed_jobs(outcomes@),
    {
        let mut jobs: Vec<Job> = Vec::new();
        let mut i: usize = 0;
        assert(job_views(jobs@) =~= renewed_jobs(outcomes@.take(0)));
        while i < outcomes.len()
            invariant
                i <= outcomes.len(),
                job_views(jobs@) == renewed_jobs(outcomes@.take(i as int)),
            decreases outcomes.len() - i,
        {
            let ghost before = job_views(jobs@);
            proof {
                assert(outcomes@.take(i + 1).drop_last() =~= outcomes@.take(i as int));
            }
            match &outcomes[i] {
                Ok(user) => {
                    jobs.push(Job::SaveCharacter(user.clone()));
                    assert(job_views(jobs@) =~= before + seq![JobView::SaveCharacter(user@)]);
                },
                Err(_) => {
                    assert(job_views(jobs@) =~= before + Seq::<JobView>::empty());
                },
            }
            i += 1;
        }
        assert(outcomes@.take(i as int) =~= outcomes@);
        jobs
    }
}

/// A token whose issuer is missing or is not one of the two accepted is
/// turned down for its issuer, whatever else it claims.
pub proof fn lemma_foreign_issuer_is_rejected(payload: Json)
    requires
        payload.text("iss"@) matches Some(iss) ==> !accepted_issuer(iss),
    ensures
        claims_of(payload) == Err::<ClaimsView, Rejection>(Rejection::Issuer),
{
}

/// Claims that come through name an accepted issuer.
pub proof fn lemma_accepted_claims_name_issuer(payload: Json)
    requires
        claims_of(payload) is Ok,
    ensures
        accepted_issuer(claims_of(payload)->Ok_0.iss),
        payload.text("iss"@) == Some(claims_of(payload)->Ok_0.iss),
{
}

} // verus!
