use vstd::prelude::*;
use crate::text::{
    chars_of, decimal, has_prefix, lemma_integer_round_trip, parse_i64, read_i64, same_text,
    skip_chars, starts_with,
};

verus! {

/// What kind of game object a normalized reference points at.
#[derive(Clone, Copy, Debug, PartialEq, Eq, Structural)]
pub enum EntityKind {
    SolarSystem,
    Character,
    Corporation,
    Alliance,
    ShipType,
    WeaponType,
}

impl EntityKind {
    /// The tag under which the kind is stored.
    pub open spec fn tag(self) -> Seq<char> {
        match self {
            EntityKind::SolarSystem => "solar_system"@,
            EntityKind::Character => "character"@,
            EntityKind::Corporation => "corporation"@,
            EntityKind::Alliance => "alliance"@,
            EntityKind::ShipType => "ship_type"@,
            EntityKind::WeaponType => "weapon_type"@,
        }
    }

    pub fn as_str(&self) -> (r: &'static str)
        ensures
            r@ == self.tag(),
    {
        match self {
            EntityKind::SolarSystem => "solar_system",
            EntityKind::Character => "character",
            EntityKind::Corporation => "corporation",
            EntityKind::Alliance => "alliance",
            EntityKind::ShipType => "ship_type",
            EntityKind::WeaponType => "weapon_type",
        }
    }

    /// The kind that is stored under a tag, if the tag is one of the six.
    pub fn parse(tag: &str) -> (r: Option<EntityKind>)
        ensures
            forall|kind: EntityKind| r == Some(kind) <==> #[trigger] kind.tag() == tag@,
    {
        let r = if same_text(tag, "solar_system") {
            Some(EntityKind::SolarSystem)
        } else if same_text(tag, "character") {
            Some(EntityKind::Character)
        } else if same_text(tag, "corporation") {
            Some(EntityKind::Corporation)
        } else if same_text(tag, "alliance") {
            Some(EntityKind::Alliance)
        } else if same_text(tag, "ship_type") {
            Some(EntityKind::ShipType)
        } else if same_text(tag, "weapon_type") {
            Some(EntityKind::WeaponType)
        } else {
            None
        };
        proof {
            assert forall|kind: EntityKind| r == Some(kind) <==> #[trigger] kind.tag()
                == tag@ by {
                if let Some(found) = r {
                    if kind != found {
                        EntityKind::lemma_tags_differ(kind, found);
                    }
                }
            }
        }
        r
    }

    /// No two kinds share a tag.
    pub proof fn lemma_tags_differ(a: EntityKind, b: EntityKind)
        requires
            a != b,
        ensures
            a.tag() != b.tag(),
    {
        reveal_strlit("solar_system");
        reveal_strlit("character");
        reveal_strlit("corporation");
        reveal_strlit("alliance");
        reveal_strlit("ship_type");
        reveal_strlit("weapon_type");
        assert("solar_system"@.len() == 12);
        assert("character"@.len() == 9 && "character"@[0] == 'c');
        assert("corporation"@.len() == 11 && "corporation"@[0] == 'c');
        assert("alliance"@.len() == 8);
        assert("ship_type"@.len() == 9 && "ship_type"@[0] == 's');
        assert("weapon_type"@.len() == 11 && "weapon_type"@[0] == 'w');
    }
}

/// The identifier that stands for "absent". No entity that carries it is
/// stored.
pub const SENTINEL_ID: i64 = 0;

/// A normalized reference to a game object. The name is left empty until
/// someone resolves it.
#[derive(Debug, PartialEq, Eq)]
pub struct Entity {
    pub id: i64,
    pub name: String,
    pub type_: EntityKind,
}

pub struct EntityView {
    pub id: int,
    pub name: Seq<char>,
    pub kind: EntityKind,
}

impl View for Entity {
    type V = EntityView;

    open spec fn view(&self) -> EntityView {
        EntityView { id: self.id as int, name: self.name@, kind: self.type_ }
    }
}

impl Clone for Entity {
    fn clone(&self) -> (r: Self)
        ensures
            r == *self,
    {
        Entity { id: self.id, name: self.name.clone(), type_: self.type_ }
    }
}

impl Entity {
    /// An entity of the given kind whose name is not known yet.
    pub open spec fn unnamed(id: int, kind: EntityKind) -> EntityView {
        EntityView { id, name: Seq::empty(), kind }
    }

    pub fn new(id: i64, kind: EntityKind) -> (r: Entity)
        ensures
            r@ == Entity::unnamed(id as int, kind),
    {
        Entity { id, name: String::new(), type_: kind }
    }
}

/// How far the processing of a killmail reference has come.
#[derive(Clone, Copy, Debug, PartialEq, Eq, Structural)]
pub enum KillmailStatus {
    New,
    Resolved,
    Failed,
}

impl KillmailStatus {
    pub open spec fn tag(self) -> Seq<char> {
        match self {
            KillmailStatus::New => "new"@,
            KillmailStatus::Resolved => "resolved"@,
            KillmailStatus::Failed => "failed"@,
        }
    }

    pub fn as_str(&self) -> (r: &'static str)
        ensures
            r@ == self.tag(),
    {
        match self {
            KillmailStatus::New => "new",
            KillmailStatus::Resolved => "resolved",
            KillmailStatus::Failed => "failed",
        }
    }

    /// The status that is stored under a tag, if the tag is one of the three.
    pub fn parse(tag: &str) -> (r: Option<KillmailStatus>)
        ensures
            forall|status: KillmailStatus| r == Some(status) <==> #[trigger] status.tag() == tag@,
    {
        let r = if same_text(tag, "new") {
            Some(KillmailStatus::New)
        } else if same_text(tag, "resolved") {
            Some(KillmailStatus::Resolved)
        } else if same_text(tag, "failed") {
            Some(KillmailStatus::Failed)
        } else {
            None
        };
        proof {
            assert forall|status: KillmailStatus| r == Some(status) <==> #[trigger] status.tag()
                == tag@ by {
                if let Some(found) = r {
                    if status != found {
                        KillmailStatus::lemma_tags_differ(status, found);
                    }
                }
            }
        }
        r
    }

    /// No two statuses share a tag.
    pub proof fn lemma_tags_differ(a: KillmailStatus, b: KillmailStatus)
        requires
            a != b,
        ensures
            a.tag() != b.tag(),
    {
        reveal_strlit("new");
        reveal_strlit("resolved");
        reveal_strlit("failed");
        assert("new"@.len() == 3);
        assert("resolved"@.len() == 8);
        assert("failed"@.len() == 6);
    }
}

/// A reference to one killmail: the pair that the data API hands out and by
/// which the full record can be fetched.
#[derive(Debug, PartialEq, Eq)]
pub struct Killmail {
    pub killmail_id: i64,
    pub killmail_hash: String,
    pub status: KillmailStatus,
}

pub struct KillmailView {
    pub killmail_id: int,
    pub killmail_hash: Seq<char>,
    pub status: KillmailStatus,
}

impl View for Killmail {
    type V = KillmailView;

    open spec fn view(&self) -> KillmailView {
        KillmailView {
            killmail_id: self.killmail_id as int,
            killmail_hash: self.killmail_hash@,
            status: self.status,
        }
    }
}

impl Clone for Killmail {
    fn clone(&self) -> (r: Self)
        ensures
            r == *self,
    {
        Killmail {
            killmail_id: self.killmail_id,
            killmail_hash: self.killmail_hash.clone(),
            status: self.status,
        }
    }
}

/// The contents of a validated access token.
#[derive(Debug, PartialEq, Eq)]
pub struct Claims {
    pub aud: Vec<String>,
    pub exp: i64,
    pub iss: String,
    pub sub: String,
}

pub struct ClaimsView {
    pub aud: Seq<Seq<char>>,
    pub exp: int,
    pub iss: Seq<char>,
    pub sub: Seq<char>,
}

/// The texts that a list of strings holds.
pub open spec fn texts(strings: Seq<String>) -> Seq<Seq<char>> {
    strings.map_values(|s: String| s@)
}

impl View for Claims {
    type V = ClaimsView;

    open spec fn view(&self) -> ClaimsView {
        ClaimsView { aud: texts(self.aud@), exp: self.exp as int, iss: self.iss@, sub: self.sub@ }
    }
}

/// The credential record of one authenticated character. All times are
/// seconds since the Unix epoch.
#[derive(Debug, PartialEq, Eq)]
pub struct User {
    pub character_id: i64,
    pub access_token: String,
    pub refresh_token: String,
    pub expires_at: i64,
    pub created_at: i64,
    pub updated_at: i64,
    pub last_fetched: Option<i64>,
}

pub struct UserView {
    pub character_id: int,
    pub access_token: Seq<char>,
    pub refresh_token: Seq<char>,
    pub expires_at: int,
    pub created_at: int,
    pub updated_at: int,
    pub last_fetched: Option<int>,
}

impl View for User {
    type V = UserView;

    open spec fn view(&self) -> UserView {
        UserView {
            character_id: self.character_id as int,
            access_token: self.access_token@,
            refresh_token: self.refresh_token@,
            expires_at: self.expires_at as int,
            created_at: self.created_at as int,
            updated_at: self.updated_at as int,
            last_fetched: match self.last_fetched {
                Some(t) => Some(t as int),
                None => None,
            },
        }
    }
}

impl Clone for User {
    fn clone(&self) -> (r: Self)
        ensures
            r == *self,
    {
        User {
            character_id: self.character_id,
            access_token: self.access_token.clone(),
            refresh_token: self.refresh_token.clone(),
            expires_at: self.expires_at,
            created_at: self.created_at,
            updated_at: self.updated_at,
            last_fetched: self.last_fetched,
        }
    }
}

/// The character whom a token's subject names. The subject has the form
/// `CHARACTER:EVE:<id>`, where `<id>` is an integer in decimal that fits
/// `i64`. A subject of any other form names no character.
pub open spec fn character_id_of(sub: Seq<char>) -> Option<int> {
    if has_prefix(sub, "CHARACTER:EVE:"@) {
        match parse_i64(sub.skip("CHARACTER:EVE:"@.len() as int)) {
            Some(id) => Some(id as int),
            None => None,
        }
    } else {
        None
    }
}

/// Reads the character out of a token's subject.
pub fn character_id(sub: &str) -> (r: Option<i64>)
    ensures
        match character_id_of(sub@) {
            Some(id) => r is Some && r->Some_0 == id,
            None => r is None,
        },
{
    let prefix = chars_of("CHARACTER:EVE:");
    let chars = chars_of(sub);
    if !starts_with(&chars, &prefix) {
        return None;
    }
    let rest = skip_chars(&chars, prefix.len());
    read_i64(&rest)
}

impl User {
    /// The account that a validated token stands for, first seen at `now`.
    /// There is none where the token's subject names no character.
    pub open spec fn issued(
        access_token: Seq<char>,
        refresh_token: Seq<char>,
        claims: ClaimsView,
        now: int,
    ) -> Option<UserView> {
        match character_id_of(claims.sub) {
            Some(character_id) => Some(
                UserView {
                    character_id,
                    access_token,
                    refresh_token,
                    expires_at: claims.exp,
                    created_at: now,
                    updated_at: now,
                    last_fetched: None,
                },
            ),
            None => None,
        }
    }

    /// Builds the account for a pair of tokens and the claims of the access
    /// token, as of the time `now`. No account is built for claims whose
    /// subject names no character.
    pub fn at(access_token: String, refresh_token: String, claims: Claims, now: i64) -> (r:
        Option<User>)
        ensures
            match User::issued(access_token@, refresh_token@, claims@, now as int) {
                Some(user) => r is Some && r->Some_0@ == user,
                None => r is None,
            },
    {
        match character_id(claims.sub.as_str()) {
            Some(character_id) => Some(
                User {
                    character_id,
                    access_token,
                    refresh_token,
                    expires_at: claims.exp,
                    created_at: now,
                    updated_at: now,
                    last_fetched: None,
                },
            ),
            None => None,
        }
    }

    /// Builds the account for a pair of tokens and the claims of the access
    /// token, as of now by this machine's clock. No account is built for
    /// claims whose subject names no character.
    pub fn new(access_token: String, refresh_token: String, claims: Claims) -> (r: Option<User>)
        ensures
            r is Some <==> character_id_of(claims@.sub) is Some,
            r matches Some(user) ==> Some(user@) == User::issued(
                access_token@,
                refresh_token@,
                claims@,
                user@.created_at,
            ),
    {
        User::at(access_token, refresh_token, claims, crate::time::now())
    }
}

/// A subject of the form `CHARACTER:EVE:<id>` names the character `<id>`,
/// whichever identifier that is.
pub proof fn lemma_subject_names_character(id: i64)
    ensures
        character_id_of("CHARACTER:EVE:"@ + decimal(id as int)) == Some(id as int),
{
    let prefix = "CHARACTER:EVE:"@;
    let number = decimal(id as int);
    let sub = prefix + number;
    assert(sub.take(prefix.len() as int) =~= prefix);
    assert(sub.skip(prefix.len() as int) =~= number);
    lemma_integer_round_trip(id as int);
}

/// The account that is built from a token's claims names the character of
/// the token's subject and expires when the token says it does.
pub proof fn lemma_account_follows_claims(
    access_token: Seq<char>,
    refresh_token: Seq<char>,
    claims: ClaimsView,
    id: i64,
    now: int,
)
    requires
        claims.sub == "CHARACTER:EVE:"@ + decimal(id as int),
    ensures
        User::issued(access_token, refresh_token, claims, now) matches Some(user)
            && user.character_id == id && user.expires_at == claims.exp,
{
    lemma_subject_names_character(id);
}

/// No account stands for a subject that names no character.
pub proof fn lemma_no_account_without_character(
    access_token: Seq<char>,
    refresh_token: Seq<char>,
    claims: ClaimsView,
    now: int,
)
    requires
        character_id_of(claims.sub) is None,
    ensures
        User::issued(access_token, refresh_token, claims, now) is None,
{
}

} // verus!
