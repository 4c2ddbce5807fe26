use vstd::prelude::*;
use crate::json::{json_view, strings_of, Json};
use crate::models::texts;

verus! {

/// `jsonwebtoken::jwk::Jwk`, the description of one key of a key set.
#[verifier::external_type_specification]
#[verifier::external_body]
pub struct ExJwk(jsonwebtoken::jwk::Jwk);

/// `jsonwebtoken::DecodingKey`, a key that verifies signatures.
#[verifier::external_type_specification]
#[verifier::external_body]
pub struct ExDecodingKey(jsonwebtoken::DecodingKey);

/// `jsonwebtoken::errors::Error`, the reason why a token or a key was turned
/// down.
#[verifier::external_type_specification]
#[verifier::external_body]
pub struct ExJwtError(jsonwebtoken::errors::Error);

/// The key description that `serde_json::from_value` reads out of a JSON
/// value, if it reads one.
pub uninterp spec fn jwk_read(key: Json) -> Option<jsonwebtoken::jwk::Jwk>;

/// The verification key that `DecodingKey::from_jwk` makes of a key
/// description, if it makes one.
pub uninterp spec fn jwk_key(jwk: jsonwebtoken::jwk::Jwk) -> Option<jsonwebtoken::DecodingKey>;

/// The claims whose presence a decoder can be told to insist on.
pub open spec fn is_registered_claim(name: Seq<char>) -> bool {
    ||| name == "exp"@
    ||| name == "nbf"@
    ||| name == "sub"@
    ||| name == "iss"@
    ||| name == "aud"@
}

/// Whether two lists of texts have a text in common.
pub open spec fn share_member(a: Seq<Seq<char>>, b: Seq<Seq<char>>) -> bool {
    exists|i: int, j: int| 0 <= i < a.len() && 0 <= j < b.len() && a[i] == b[j]
}

/// What holds of the claims of every token that a decoder lets through when
/// it insists on the claims `required` and on one of `audiences`:
/// - where the claims are an object, each registered claim among `required`
///   is a member of it;
/// - an audience claim that is one string is one of `audiences`;
/// - an audience claim that is a list of strings shares one with `audiences`.
pub open spec fn passed(payload: Json, required: Seq<Seq<char>>, audiences: Seq<Seq<char>>) -> bool {
    &&& payload is Object ==> forall|i: int|
        0 <= i < required.len() && is_registered_claim(#[trigger] required[i])
            ==> payload.member(required[i]) is Some
    &&& payload.text("aud"@) matches Some(name) ==> audiences.contains(name)
    &&& payload.array("aud"@) matches Some(items) ==> (strings_of(items) matches Some(names)
        ==> share_member(names, audiences))
}

/// Calls `serde_json::from_value` for a `jsonwebtoken::jwk::Jwk`, on a copy of
/// the value. The contract names what comes back.
#[verifier::external_body]
pub(crate) fn read_jwk(key: &serde_json::Value) -> (r: Result<
    jsonwebtoken::jwk::Jwk,
    serde_json::Error,
>)
    ensures
        r is Ok <==> jwk_read(json_view(*key)) is Some,
        r matches Ok(jwk) ==> jwk_read(json_view(*key)) == Some(jwk),
{
    serde_json::from_value::<jsonwebtoken::jwk::Jwk>(key.clone())
}

/// Calls `jsonwebtoken::DecodingKey::from_jwk`. The contract names what comes
/// back.
#[verifier::external_body]
pub(crate) fn key_from_jwk(jwk: &jsonwebtoken::jwk::Jwk) -> (r: Result<
    jsonwebtoken::DecodingKey,
    jsonwebtoken::errors::Error,
>)
    ensures
        r is Ok <==> jwk_key(*jwk) is Some,
        r matches Ok(key) ==> jwk_key(*jwk) == Some(key),
{
    jsonwebtoken::DecodingKey::from_jwk(jwk)
}

/// Calls `jsonwebtoken::decode` for a `serde_json::Value`, with the checks
/// that `jsonwebtoken::Validation::new` sets up for RS256 and with the
/// required claims and the audiences as given, and hands out the claims of
/// the token that it let through.
///
/// Whether a token is let through depends on its signature and on the clock,
/// so the contract promises no success. It says what the decoder's checks
/// leave standing of the claims of a token that did get through. Only a
/// verifier for RS256 is ever built, whatever the key. The call reads the
/// clock as seconds since the Unix epoch and panics on a machine whose clock
/// stands before that.
#[verifier::external_body]
pub(crate) fn decode_rs256(
    token: &str,
    key: &jsonwebtoken::DecodingKey,
    required: &Vec<String>,
    audiences: &Vec<String>,
) -> (r: Result<serde_json::Value, jsonwebtoken::errors::Error>)
    ensures
        r matches Ok(payload) ==> passed(json_view(payload), texts(required@), texts(audiences@)),
{
    let mut validation = jsonwebtoken::Validation::new(jsonwebtoken::Algorithm::RS256);
    validation.set_required_spec_claims(required);
    validation.set_audience(audiences);
    jsonwebtoken::decode::<serde_json::Value>(token, key, &validation).map(|data| data.claims)
}

} // verus!
